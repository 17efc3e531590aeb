//! The cosmetic theme data used by the interactive surfaces: type palette
//! cycling, sparkle and loader animation frames, and the ASCII art
//! collection. Pure data and counters; all drawing lives with the caller.

use vstd::prelude::*;
use vstd::string::StringExecFns;
use rand::Rng;

verus! {

/// The closed set of theme types the palette cycles through.
#[derive(Debug, Clone, Copy)]
pub enum PokemonType {
    Electric,
    Fire,
    Water,
    Grass,
    Psychic,
    Dragon,
    Phantom,
    Normal,
    Ice,
    Dark,
}

/// The next type in the fixed cycling order.
pub open spec fn spec_next_type(t: PokemonType) -> PokemonType {
    match t {
        PokemonType::Electric => PokemonType::Fire,
        PokemonType::Fire => PokemonType::Water,
        PokemonType::Water => PokemonType::Grass,
        PokemonType::Grass => PokemonType::Psychic,
        PokemonType::Psychic => PokemonType::Dragon,
        PokemonType::Dragon => PokemonType::Phantom,
        PokemonType::Phantom => PokemonType::Normal,
        PokemonType::Normal => PokemonType::Ice,
        PokemonType::Ice => PokemonType::Dark,
        PokemonType::Dark => PokemonType::Electric,
    }
}
pub open spec fn spec_default_sparkles() -> Seq<Seq<char>> {
    seq!["✨"@, "⭐"@, "🌟"@, "💫"@, "⚡"@, "🔥"@, "💧"@, "🌿"@, "🔮"@, "❄️"@]
}
/// The animated theme state: the current type, the sparkle frames, and the
/// animation counter.
pub struct PokemonTheme {
    pub current_type: PokemonType,
    pub sparkle_chars: Vec<&'static str>,
    pub animation_frame: usize,
}

impl Default for PokemonTheme {
    /// A fresh theme: the first type, the standard sparkle frames, and the
    /// counter at zero.
    fn default() -> (r: PokemonTheme)
        ensures
            r.current_type is Electric,
            r.animation_frame == 0,
            r.sparkle_chars.deep_view() == spec_default_sparkles(),
    {
        let r = PokemonTheme {
            current_type: PokemonType::Electric,
            sparkle_chars: vec!["✨", "⭐", "🌟", "💫", "⚡", "🔥", "💧", "🌿", "🔮", "❄️"],
            animation_frame: 0,
        };
        proof {
            assert(r.sparkle_chars.deep_view() =~= spec_default_sparkles());
        }
        r
    }
}

impl PokemonTheme {
    /// A fresh theme of the given type.
    pub fn new(pokemon_type: PokemonType) -> (r: PokemonTheme)
        ensures
            r.current_type == pokemon_type,
            r.animation_frame == 0,
            r.sparkle_chars.deep_view() == spec_default_sparkles(),
    {
        let mut r = PokemonTheme::default();
        r.current_type = pokemon_type;
        r
    }

    /// Advances the animation counter and returns the sparkle frame it now
    /// points at.
    pub fn get_sparkle(&mut self) -> (r: &'static str)
        requires
            old(self).sparkle_chars@.len() > 0,
            old(self).animation_frame < usize::MAX,
        ensures
            final (self).animation_frame == (old(self).animation_frame + 1) % (
            old(self).sparkle_chars@.len() as int),
            final (self).sparkle_chars == old(self).sparkle_chars,
            final (self).current_type == old(self).current_type,
            r@ == final (self).sparkle_chars@[final (self).animation_frame as int]@,
    {
        self.animation_frame = (self.animation_frame + 1) % self.sparkle_chars.len();
        self.sparkle_chars[self.animation_frame]
    }

    /// One random sparkle from the fixed pool; nothing is promised of
    /// which one.
    pub fn get_random_sparkle() -> (r: &'static str)
        ensures
            spec_sparkle_pool().contains(r@),
    {
        let i = random_below(12);
        let r: &'static str = match i {
            0 => "✨",
            1 => "⭐",
            2 => "🌟",
            3 => "💫",
            4 => "⚡",
            5 => "🔥",
            6 => "💧",
            7 => "🌿",
            8 => "🔮",
            9 => "❄️",
            10 => "💎",
            _ => "🌈",
        };
        proof {
            assert(spec_sparkle_pool()[i as int] == r@);
        }
        r
    }

    /// Steps the current type one place along the fixed cycling order.
    pub fn cycle_type(&mut self)
        ensures
            final (self).current_type == spec_next_type(old(self).current_type),
            final (self).sparkle_chars == old(self).sparkle_chars,
            final (self).animation_frame == old(self).animation_frame,
    {
        self.current_type = match self.current_type {
            PokemonType::Electric => PokemonType::Fire,
            PokemonType::Fire => PokemonType::Water,
            PokemonType::Water => PokemonType::Grass,
            PokemonType::Grass => PokemonType::Psychic,
            PokemonType::Psychic => PokemonType::Dragon,
            PokemonType::Dragon => PokemonType::Phantom,
            PokemonType::Phantom => PokemonType::Normal,
            PokemonType::Normal => PokemonType::Ice,
            PokemonType::Ice => PokemonType::Dark,
            PokemonType::Dark => PokemonType::Electric,
        };
    }
}
pub open spec fn spec_sparkle_pool() -> Seq<Seq<char>> {
    seq!["✨"@, "⭐"@, "🌟"@, "💫"@, "⚡"@, "🔥"@, "💧"@, "🌿"@, "🔮"@, "❄️"@, "💎"@, "🌈"@]
}

/// Relies on `rand::thread_rng` and `Rng::gen_range`: an index drawn below
/// the bound; nothing holds of which one beyond the range.
#[verifier::external_body]
fn random_below(bound: usize) -> (r: usize)
    requires
        bound > 0,
    ensures
        r < bound,
{
    rand::thread_rng().gen_range(0..bound)
}

/// The ASCII art collection.
pub struct PokemonArt;

pub open spec fn spec_pikachu_art() -> Seq<Seq<char>> {
    seq![
        "      ░░░░░░░░░░░░░░░░░░░░░░░░░░░"@,
        "    ░░████░░░░██░░░░░░██░░░░████░░"@,
        "  ░░██████░░██████░░██████░░██████░░"@,
        "  ░░██████████████████████████████░░"@,
        "░░████████████████████████████████░░"@,
        "░░██████████████████████████████████"@,
        "░░██████████░░████████░░██████████░░"@,
        "░░██████████░░████████░░██████████░░"@,
        "░░████████████████████████████████░░"@,
        "░░██████████████████████████████░░░░"@,
        "  ░░██████████████████████████░░░░"@,
        "  ░░████████░░██████░░██████░░░░"@,
        "    ░░██████░░░░██░░░░░░░░░░░░"@,
        "      ░░░░░░░░░░░░░░░░░░░░░░"@,
    ]
}

pub open spec fn spec_charizard_art() -> Seq<Seq<char>> {
    seq![
        "                    ░░░░████░░░░"@,
        "                ░░████████████░░"@,
        "              ░░██████████████░░"@,
        "            ░░████████████████░░░░"@,
        "          ░░██████████████████░░"@,
        "        ░░████████████████████░░░░"@,
        "      ░░██████████░░██░░██████░░"@,
        "    ░░████████████░░██░░████████░░"@,
        "    ░░██████████████████████████░░"@,
        "  ░░████████████████████████████░░"@,
        "  ░░██████████████████████████░░░░"@,
        "    ░░████████████████████░░░░░░"@,
        "      ░░██████████████░░░░░░"@,
        "        ░░░░██████░░░░░░"@,
    ]
}

pub open spec fn spec_blastoise_art() -> Seq<Seq<char>> {
    seq![
        "          ░░░░░░░░░░░░░░░░"@,
        "        ░░████████████████░░"@,
        "      ░░██████████████████░░"@,
        "    ░░████████████████████░░░░"@,
        "    ░░████████░░░░░░████████░░"@,
        "  ░░██████░░░░░░░░░░░░██████░░"@,
        "  ░░████░░░░██░░░░██░░░░████░░"@,
        "░░████░░░░████░░░░████░░░░████░░"@,
        "░░██░░░░██████░░░░██████░░░░██░░"@,
        "░░░░░░████████████████████░░░░░░"@,
        "  ░░██████████████████████░░"@,
        "    ░░████████████████░░░░"@,
        "      ░░██████████░░░░"@,
        "        ░░░░░░░░░░"@,
    ]
}

pub open spec fn spec_venusaur_art() -> Seq<Seq<char>> {
    seq![
        "        ░░░░░░██░░░░░░░░░░"@,
        "      ░░████████████████░░"@,
        "    ░░██████░░░░░░██████░░"@,
        "  ░░██████░░░░░░░░░░██████░░"@,
        "  ░░████░░░░██░░██░░░░████░░"@,
        "░░████░░░░████░░████░░░░████░░"@,
        "░░██░░░░██████░░██████░░░░██░░"@,
        "░░░░░░████████████████████░░░░"@,
        "  ░░██████████████████████░░"@,
        "    ░░████████████████░░░░"@,
        "      ░░██████████░░░░"@,
        "        ░░██████░░"@,
        "          ░░░░░░"@,
    ]
}

pub open spec fn spec_pokeball_art() -> Seq<Seq<char>> {
    seq![
        "    ░░░░░░░░░░░░░░░░"@,
        "  ░░██████████████░░"@,
        "░░████████████████░░"@,
        "░░██████░░░░██████░░"@,
        "░░████░░░░░░░░████░░"@,
        "░░██░░░░████░░░░██░░"@,
        "░░░░░░████████░░░░░░"@,
        "░░██░░░░████░░░░██░░"@,
        "░░████░░░░░░░░████░░"@,
        "░░██████░░░░██████░░"@,
        "░░████████████████░░"@,
        "  ░░██████████████░░"@,
        "    ░░░░░░░░░░░░░░░░"@,
    ]
}

pub open spec fn spec_eevee_art() -> Seq<Seq<char>> {
    seq![
        "      ░░░░██░░░░░░░░██░░░░"@,
        "    ░░██████░░░░░░██████░░"@,
        "  ░░████████░░░░░░████████░░"@,
        "  ░░██████████████████████░░"@,
        "░░████████████████████████░░"@,
        "░░██████████░░░░██████████░░"@,
        "░░██████████░░░░██████████░░"@,
        "░░████████████████████████░░"@,
        "░░██████████████████████░░░░"@,
        "  ░░██████████████████░░░░"@,
        "    ░░████████████░░░░"@,
        "      ░░██████░░░░"@,
        "        ░░░░░░"@,
    ]
}

impl PokemonArt {
    pub fn get_pikachu() -> (r: Vec<&'static str>)
        ensures
            r.deep_view() == spec_pikachu_art(),
    {
        let r: Vec<&'static str> = vec![
            "      ░░░░░░░░░░░░░░░░░░░░░░░░░░░",
            "    ░░████░░░░██░░░░░░██░░░░████░░",
            "  ░░██████░░██████░░██████░░██████░░",
            "  ░░██████████████████████████████░░",
            "░░████████████████████████████████░░",
            "░░██████████████████████████████████",
            "░░██████████░░████████░░██████████░░",
            "░░██████████░░████████░░██████████░░",
            "░░████████████████████████████████░░",
            "░░██████████████████████████████░░░░",
            "  ░░██████████████████████████░░░░",
            "  ░░████████░░██████░░██████░░░░",
            "    ░░██████░░░░██░░░░░░░░░░░░",
            "      ░░░░░░░░░░░░░░░░░░░░░░",
        ];
        proof {
            assert(r.deep_view() =~= spec_pikachu_art());
        }
        r
    }

    pub fn get_charizard() -> (r: Vec<&'static str>)
        ensures
            r.deep_view() == spec_charizard_art(),
    {
        let r: Vec<&'static str> = vec![
            "                    ░░░░████░░░░",
            "                ░░████████████░░",
            "              ░░██████████████░░",
            "            ░░████████████████░░░░",
            "          ░░██████████████████░░",
            "        ░░████████████████████░░░░",
            "      ░░██████████░░██░░██████░░",
            "    ░░████████████░░██░░████████░░",
            "    ░░██████████████████████████░░",
            "  ░░████████████████████████████░░",
            "  ░░██████████████████████████░░░░",
            "    ░░████████████████████░░░░░░",
            "      ░░██████████████░░░░░░",
            "        ░░░░██████░░░░░░",
        ];
        proof {
            assert(r.deep_view() =~= spec_charizard_art());
        }
        r
    }

    pub fn get_blastoise() -> (r: Vec<&'static str>)
        ensures
            r.deep_view() == spec_blastoise_art(),
    {
        let r: Vec<&'static str> = vec![
            "          ░░░░░░░░░░░░░░░░",
            "        ░░████████████████░░",
            "      ░░██████████████████░░",
            "    ░░████████████████████░░░░",
            "    ░░████████░░░░░░████████░░",
            "  ░░██████░░░░░░░░░░░░██████░░",
            "  ░░████░░░░██░░░░██░░░░████░░",
            "░░████░░░░████░░░░████░░░░████░░",
            "░░██░░░░██████░░░░██████░░░░██░░",
            "░░░░░░████████████████████░░░░░░",
            "  ░░██████████████████████░░",
            "    ░░████████████████░░░░",
            "      ░░██████████░░░░",
            "        ░░░░░░░░░░",
        ];
        proof {
            assert(r.deep_view() =~= spec_blastoise_art());
        }
        r
    }

    pub fn get_venusaur() -> (r: Vec<&'static str>)
        ensures
            r.deep_view() == spec_venusaur_art(),
    {
        let r: Vec<&'static str> = vec![
            "        ░░░░░░██░░░░░░░░░░",
            "      ░░████████████████░░",
            "    ░░██████░░░░░░██████░░",
            "  ░░██████░░░░░░░░░░██████░░",
            "  ░░████░░░░██░░██░░░░████░░",
            "░░████░░░░████░░████░░░░████░░",
            "░░██░░░░██████░░██████░░░░██░░",
            "░░░░░░████████████████████░░░░",
            "  ░░██████████████████████░░",
            "    ░░████████████████░░░░",
            "      ░░██████████░░░░",
            "        ░░██████░░",
            "          ░░░░░░",
        ];
        proof {
            assert(r.deep_view() =~= spec_venusaur_art());
        }
        r
    }

    pub fn get_pokeball() -> (r: Vec<&'static str>)
        ensures
            r.deep_view() == spec_pokeball_art(),
    {
        let r: Vec<&'static str> = vec![
            "    ░░░░░░░░░░░░░░░░",
            "  ░░██████████████░░",
            "░░████████████████░░",
            "░░██████░░░░██████░░",
            "░░████░░░░░░░░████░░",
            "░░██░░░░████░░░░██░░",
            "░░░░░░████████░░░░░░",
            "░░██░░░░████░░░░██░░",
            "░░████░░░░░░░░████░░",
            "░░██████░░░░██████░░",
            "░░████████████████░░",
            "  ░░██████████████░░",
            "    ░░░░░░░░░░░░░░░░",
        ];
        proof {
            assert(r.deep_view() =~= spec_pokeball_art());
        }
        r
    }

    pub fn get_eevee() -> (r: Vec<&'static str>)
        ensures
            r.deep_view() == spec_eevee_art(),
    {
        let r: Vec<&'static str> = vec![
            "      ░░░░██░░░░░░░░██░░░░",
            "    ░░██████░░░░░░██████░░",
            "  ░░████████░░░░░░████████░░",
            "  ░░██████████████████████░░",
            "░░████████████████████████░░",
            "░░██████████░░░░██████████░░",
            "░░██████████░░░░██████████░░",
            "░░████████████████████████░░",
            "░░██████████████████████░░░░",
            "  ░░██████████████████░░░░",
            "    ░░████████████░░░░",
            "      ░░██████░░░░",
            "        ░░░░░░",
        ];
        proof {
            assert(r.deep_view() =~= spec_eevee_art());
        }
        r
    }

    /// One of the six art blocks, drawn at random; nothing is promised of
    /// which one.
    pub fn get_random_pokemon() -> (r: Vec<&'static str>)
        ensures
            r.deep_view() == spec_pikachu_art() || r.deep_view() == spec_charizard_art()
                || r.deep_view() == spec_blastoise_art() || r.deep_view() == spec_venusaur_art()
                || r.deep_view() == spec_eevee_art() || r.deep_view() == spec_pokeball_art(),
    {
        let i = random_below(6);
        match i {
            0 => Self::get_pikachu(),
            1 => Self::get_charizard(),
            2 => Self::get_blastoise(),
            3 => Self::get_venusaur(),
            4 => Self::get_eevee(),
            _ => Self::get_pokeball(),
        }
    }
}

/// The loader frames for a theme type: its symbol swept back and forth.
pub open spec fn spec_loader_frames(t: PokemonType) -> Seq<Seq<char>> {
    match t {
        PokemonType::Electric => seq!["⚡    "@, " ⚡   "@, "  ⚡  "@, "   ⚡ "@, "    ⚡"@, "   ⚡ "@, "  ⚡  "@, " ⚡   "@],
        PokemonType::Fire => seq!["🔥    "@, " 🔥   "@, "  🔥  "@, "   🔥 "@, "    🔥"@, "   🔥 "@, "  🔥  "@, " 🔥   "@],
        PokemonType::Water => seq!["💧    "@, " 💧   "@, "  💧  "@, "   💧 "@, "    💧"@, "   💧 "@, "  💧  "@, " 💧   "@],
        _ => seq!["✨    "@, " ✨   "@, "  ✨  "@, "   ✨ "@, "    ✨"@, "   ✨ "@, "  ✨  "@, " ✨   "@],
    }
}

/// A cyclic loading animation for a theme type.
pub struct PokemonLoader {
    pub frames: Vec<String>,
    pub current_frame: usize,
    pub pokemon_type: PokemonType,
}

impl PokemonLoader {
    /// A loader with the frames of the given type, starting at the first.
    pub fn new(pokemon_type: PokemonType) -> (r: PokemonLoader)
        ensures
            r.frames.deep_view() == spec_loader_frames(pokemon_type),
            r.current_frame == 0,
            r.pokemon_type == pokemon_type,
    {
        let base_frames: Vec<String> = match pokemon_type {
            PokemonType::Electric => vec![
                String::from_str("⚡    "),
                String::from_str(" ⚡   "),
                String::from_str("  ⚡  "),
                String::from_str("   ⚡ "),
                String::from_str("    ⚡"),
                String::from_str("   ⚡ "),
                String::from_str("  ⚡  "),
                String::from_str(" ⚡   "),
            ],
            PokemonType::Fire => vec![
                String::from_str("🔥    "),
                String::from_str(" 🔥   "),
                String::from_str("  🔥  "),
                String::from_str("   🔥 "),
                String::from_str("    🔥"),
                String::from_str("   🔥 "),
                String::from_str("  🔥  "),
                String::from_str(" 🔥   "),
            ],
            PokemonType::Water => vec![
                String::from_str("💧    "),
                String::from_str(" 💧   "),
                String::from_str("  💧  "),
                String::from_str("   💧 "),
                String::from_str("    💧"),
                String::from_str("   💧 "),
                String::from_str("  💧  "),
                String::from_str(" 💧   "),
            ],
            _ => vec![
                String::from_str("✨    "),
                String::from_str(" ✨   "),
                String::from_str("  ✨  "),
                String::from_str("   ✨ "),
                String::from_str("    ✨"),
                String::from_str("   ✨ "),
                String::from_str("  ✨  "),
                String::from_str(" ✨   "),
            ],
        };
        proof {
            assert(base_frames.deep_view() =~= spec_loader_frames(pokemon_type));
        }
        PokemonLoader { frames: base_frames, current_frame: 0, pokemon_type }
    }

    /// Returns the frame the counter points at and advances it cyclically.
    pub fn next_frame(&mut self) -> (r: &str)
        requires
            old(self).current_frame < old(self).frames@.len(),
        ensures
            final (self).frames == old(self).frames,
            final (self).pokemon_type == old(self).pokemon_type,
            final (self).current_frame == (old(self).current_frame + 1) % (
            old(self).frames@.len() as int),
            r@ == old(self).frames.deep_view()[old(self).current_frame as int],
    {
        let len = self.frames.len();
        let idx = self.current_frame;
        self.current_frame = (idx + 1) % len;
        self.frames[idx].as_str()
    }
}

} // verus!

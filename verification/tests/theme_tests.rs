use aether::pokemon_theme::{PokemonArt, PokemonLoader, PokemonTheme, PokemonType};
use aether::pokemon_widgets::{BattleAnimation, NotificationType, PokemonNotification, TypeBadge};

#[test]
fn theme_cycles_through_all_types_and_back() {
    let mut t = PokemonTheme::new(PokemonType::Electric);
    for _ in 0..10 {
        t.cycle_type();
    }
    assert!(matches!(t.current_type, PokemonType::Electric));
    t.cycle_type();
    assert!(matches!(t.current_type, PokemonType::Fire));
}

#[test]
fn theme_sparkles_cycle_in_order() {
    let mut t = PokemonTheme::default();
    assert_eq!(t.animation_frame, 0);
    assert_eq!(t.get_sparkle(), "⭐");
    assert_eq!(t.get_sparkle(), "🌟");
    for _ in 0..8 {
        t.get_sparkle();
    }
    assert_eq!(t.animation_frame, 0);
}

#[test]
fn theme_random_sparkle_comes_from_the_pool() {
    let pool = ["✨", "⭐", "🌟", "💫", "⚡", "🔥", "💧", "🌿", "🔮", "❄️", "💎", "🌈"];
    for _ in 0..50 {
        let s = PokemonTheme::get_random_sparkle();
        assert!(pool.contains(&s));
    }
}

#[test]
fn art_blocks_have_their_fixed_shapes() {
    assert_eq!(PokemonArt::get_pikachu().len(), 14);
    assert_eq!(PokemonArt::get_charizard().len(), 14);
    assert_eq!(PokemonArt::get_blastoise().len(), 14);
    assert_eq!(PokemonArt::get_venusaur().len(), 13);
    assert_eq!(PokemonArt::get_pokeball().len(), 13);
    assert_eq!(PokemonArt::get_eevee().len(), 13);
    assert_eq!(PokemonArt::get_pikachu()[0], "      ░░░░░░░░░░░░░░░░░░░░░░░░░░░");
    let random = PokemonArt::get_random_pokemon();
    assert!(random.len() == 13 || random.len() == 14);
}

#[test]
fn loader_frames_sweep_and_cycle() {
    let mut l = PokemonLoader::new(PokemonType::Electric);
    assert_eq!(l.frames.len(), 8);
    assert_eq!(l.next_frame().to_string(), "⚡    ");
    assert_eq!(l.next_frame().to_string(), " ⚡   ");
    for _ in 0..6 {
        l.next_frame();
    }
    assert_eq!(l.current_frame, 0);
    let mut w = PokemonLoader::new(PokemonType::Water);
    assert_eq!(w.next_frame().to_string(), "💧    ");
    let mut other = PokemonLoader::new(PokemonType::Dark);
    assert_eq!(other.next_frame().to_string(), "✨    ");
}

#[test]
fn badge_builder_flags() {
    let b = TypeBadge::new(PokemonType::Fire, "deploys".to_string());
    assert!(!b.animated);
    let b = b.animated();
    assert!(b.animated);
    assert_eq!(b.text, "deploys");
}

#[test]
fn battle_animation_frames_wrap_at_eight() {
    let mut a = BattleAnimation::new(
        "pikachu".to_string(),
        "server".to_string(),
        "thunderbolt".to_string(),
        PokemonType::Electric,
    );
    assert!(!a.is_critical);
    for _ in 0..7 {
        a.next_frame();
    }
    assert_eq!(a.animation_frame, 7);
    a.next_frame();
    assert_eq!(a.animation_frame, 0);
    let a = a.critical();
    assert!(a.is_critical);
}

#[test]
fn notifications_pick_type_and_dismissal() {
    let n = PokemonNotification::success("done".to_string());
    assert!(matches!(n.notification_type, NotificationType::Success));
    assert!(matches!(n.pokemon_type, PokemonType::Grass));
    assert!(n.auto_dismiss);
    let n = PokemonNotification::error("bad".to_string());
    assert!(matches!(n.notification_type, NotificationType::Error));
    assert!(!n.auto_dismiss);
    let n = PokemonNotification::warning("careful".to_string());
    assert!(n.auto_dismiss);
    let n = PokemonNotification::info("fyi".to_string());
    assert!(matches!(n.pokemon_type, PokemonType::Water));
    let n = PokemonNotification::critical("down".to_string());
    assert!(matches!(n.notification_type, NotificationType::Critical));
    assert!(!n.auto_dismiss);
    assert_eq!(n.message, "down");
}

//! The themed widget states: badges, battle animation, and notifications.
//! Only the data and its counters live here; drawing them is the terminal
//! layer's work.

use vstd::prelude::*;
use crate::pokemon_theme::PokemonType;

verus! {

/// A labelled theme-type badge.
pub struct TypeBadge {
    pub pokemon_type: PokemonType,
    pub text: String,
    pub animated: bool,
}

impl TypeBadge {
    pub fn new(pokemon_type: PokemonType, text: String) -> (r: TypeBadge)
        ensures
            r.pokemon_type == pokemon_type,
            r.text == text,
            !r.animated,
    {
        TypeBadge { pokemon_type, text, animated: false }
    }

    pub fn animated(self) -> (r: TypeBadge)
        ensures
            r.animated,
            r.pokemon_type == self.pokemon_type,
            r.text == self.text,
    {
        TypeBadge { animated: true, ..self }
    }
}

/// A battle animation's state: who acts, the move shown, and the frame
/// counter that cycles through eight frames.
#[derive(Debug, Clone)]
pub struct BattleAnimation {
    pub attacker: String,
    pub defender: String,
    pub move_name: String,
    pub animation_frame: usize,
    pub pokemon_type: PokemonType,
    pub is_critical: bool,
}

impl BattleAnimation {
    pub fn new(attacker: String, defender: String, move_name: String, pokemon_type: PokemonType) -> (r:
        BattleAnimation)
        ensures
            r.attacker == attacker,
            r.defender == defender,
            r.move_name == move_name,
            r.animation_frame == 0,
            r.pokemon_type == pokemon_type,
            !r.is_critical,
    {
        BattleAnimation {
            attacker,
            defender,
            move_name,
            animation_frame: 0,
            pokemon_type,
            is_critical: false,
        }
    }

    pub fn critical(self) -> (r: BattleAnimation)
        ensures
            r.is_critical,
            r.attacker == self.attacker,
            r.defender == self.defender,
            r.move_name == self.move_name,
            r.animation_frame == self.animation_frame,
            r.pokemon_type == self.pokemon_type,
    {
        BattleAnimation { is_critical: true, ..self }
    }

    /// Advances the frame counter, cycling through eight frames.
    pub fn next_frame(&mut self)
        requires
            old(self).animation_frame < usize::MAX,
        ensures
            final (self).animation_frame == (old(self).animation_frame + 1) % 8,
            final (self).attacker == old(self).attacker,
            final (self).defender == old(self).defender,
            final (self).move_name == old(self).move_name,
            final (self).pokemon_type == old(self).pokemon_type,
            final (self).is_critical == old(self).is_critical,
    {
        self.animation_frame = (self.animation_frame + 1) % 8;
    }
}

/// The kinds of notification popups.
#[derive(Debug, Clone)]
pub enum NotificationType {
    Success,
    Error,
    Warning,
    Info,
    Critical,
}

/// A notification popup's state: errors and critical notices stay until
/// dismissed, the rest dismiss themselves.
#[derive(Debug, Clone)]
pub struct PokemonNotification {
    pub message: String,
    pub notification_type: NotificationType,
    pub pokemon_type: PokemonType,
    pub auto_dismiss: bool,
}

impl PokemonNotification {
    pub fn success(message: String) -> (r: PokemonNotification)
        ensures
            r.message == message,
            r.notification_type is Success,
            r.pokemon_type is Grass,
            r.auto_dismiss,
    {
        PokemonNotification {
            message,
            notification_type: NotificationType::Success,
            pokemon_type: PokemonType::Grass,
            auto_dismiss: true,
        }
    }

    pub fn error(message: String) -> (r: PokemonNotification)
        ensures
            r.message == message,
            r.notification_type is Error,
            r.pokemon_type is Fire,
            !r.auto_dismiss,
    {
        PokemonNotification {
            message,
            notification_type: NotificationType::Error,
            pokemon_type: PokemonType::Fire,
            auto_dismiss: false,
        }
    }

    pub fn warning(message: String) -> (r: PokemonNotification)
        ensures
            r.message == message,
            r.notification_type is Warning,
            r.pokemon_type is Electric,
            r.auto_dismiss,
    {
        PokemonNotification {
            message,
            notification_type: NotificationType::Warning,
            pokemon_type: PokemonType::Electric,
            auto_dismiss: true,
        }
    }

    pub fn info(message: String) -> (r: PokemonNotification)
        ensures
            r.message == message,
            r.notification_type is Info,
            r.pokemon_type is Water,
            r.auto_dismiss,
    {
        PokemonNotification {
            message,
            notification_type: NotificationType::Info,
            pokemon_type: PokemonType::Water,
            auto_dismiss: true,
        }
    }

    pub fn critical(message: String) -> (r: PokemonNotification)
        ensures
            r.message == message,
            r.notification_type is Critical,
            r.pokemon_type is Dark,
            !r.auto_dismiss,
    {
        PokemonNotification {
            message,
            notification_type: NotificationType::Critical,
            pokemon_type: PokemonType::Dark,
            auto_dismiss: false,
        }
    }
}

} // verus!

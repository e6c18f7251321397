//! Log lines: the character they concern, and the option to mask names.

use vstd::prelude::*;

use crate::model::Class;
use crate::text::{push_decimal, push_str, spec_decimal, string_from_chars};

verus! {

/// Whether names are masked in the output.
#[derive(Debug, Clone, Copy, PartialEq, Eq, Structural)]
pub struct LogSettings {
    hidden: bool,
}

impl LogSettings {
    pub closed spec fn spec_hidden(self) -> bool {
        self.hidden
    }

    /// Names are shown.
    pub fn new() -> (r: LogSettings)
        ensures
            !r.spec_hidden(),
    {
        LogSettings { hidden: false }
    }
}

/// The settings after masking names (or showing them again).
pub closed spec fn spec_set_hidden(settings: LogSettings, hidden: bool) -> LogSettings {
    LogSettings { hidden }
}

/// Masks names (or shows them again).
pub fn set_hidden(settings: &mut LogSettings, hidden: bool)
    ensures
        *final(settings) == spec_set_hidden(*old(settings), hidden),
{
    settings.hidden = hidden;
}

/// Whether names are masked.
pub fn is_hidden(settings: &LogSettings) -> (r: bool)
    ensures
        r == settings.spec_hidden(),
{
    settings.hidden
}

/// Reading whether names are masked gives back what was last set, whatever
/// was set before.
pub proof fn law_hidden_read_after_write(settings: LogSettings, first: bool, second: bool)
    ensures
        spec_set_hidden(settings, first).spec_hidden() == first,
        spec_set_hidden(spec_set_hidden(settings, first), second) == spec_set_hidden(settings, second),
{
}

/// The mask shown in place of a name.
pub open spec fn spec_mask() -> Seq<char> {
    seq!['*', '*', '*', '*']
}

/// A name as shown: masked when names are hidden.
pub open spec fn spec_shown_name(settings: LogSettings, name: Seq<char>) -> Seq<char> {
    if settings.spec_hidden() {
        spec_mask()
    } else {
        name
    }
}

/// Appends a name as shown.
pub fn push_shown_name(out: &mut Vec<char>, settings: &LogSettings, name: &str)
    ensures
        final(out)@ == old(out)@ + spec_shown_name(*settings, name@),
{
    if is_hidden(settings) {
        out.push('*');
        out.push('*');
        out.push('*');
        out.push('*');
        assert(out@ == old(out)@ + spec_mask());
    } else {
        push_str(out, name);
    }
}

/// The display name of a class.
pub open spec fn spec_class_name(class: Class) -> Seq<char> {
    match class {
        Class::Assassin => "Assassin"@,
        Class::Bard => "Bard"@,
        Class::BattleMage => "Battle Mage"@,
        Class::Berserker => "Berserker"@,
        Class::BloodWeaver => "Blood Weaver"@,
        Class::DemonHunter => "Demon Hunter"@,
        Class::Druid => "Druid"@,
        Class::Mage => "Mage"@,
        Class::Necromancer => "Necromancer"@,
        Class::Paladin => "Paladin"@,
        Class::PlagueDoctor => "Plague Doctor"@,
        Class::Scout => "Scout"@,
        Class::Warrior => "Warrior"@,
    }
}

/// The display name of a class.
pub fn get_class_name(class: Class) -> (r: &'static str)
    ensures
        r@ == spec_class_name(class),
{
    match class {
        Class::Assassin => "Assassin",
        Class::Bard => "Bard",
        Class::BattleMage => "Battle Mage",
        Class::Berserker => "Berserker",
        Class::BloodWeaver => "Blood Weaver",
        Class::DemonHunter => "Demon Hunter",
        Class::Druid => "Druid",
        Class::Mage => "Mage",
        Class::Necromancer => "Necromancer",
        Class::Paladin => "Paladin",
        Class::PlagueDoctor => "Plague Doctor",
        Class::Scout => "Scout",
        Class::Warrior => "Warrior",
    }
}

/// Every class has a name of its own: two classes with the same display
/// name are the same class.
pub proof fn law_class_names_distinct(a: Class, b: Class)
    requires
        spec_class_name(a) == spec_class_name(b),
    ensures
        a == b,
{
    reveal_strlit("Assassin");
    reveal_strlit("Bard");
    reveal_strlit("Battle Mage");
    reveal_strlit("Berserker");
    reveal_strlit("Blood Weaver");
    reveal_strlit("Demon Hunter");
    reveal_strlit("Druid");
    reveal_strlit("Mage");
    reveal_strlit("Necromancer");
    reveal_strlit("Paladin");
    reveal_strlit("Plague Doctor");
    reveal_strlit("Scout");
    reveal_strlit("Warrior");
    let na = spec_class_name(a);
    let nb = spec_class_name(b);
    if a != b {
        assert(na.len() != nb.len() || na[0] != nb[0] || na[1] != nb[1] || na[2] != nb[2]);
    }
}

/// The character a log line concerns, once the game state is known.
#[derive(Debug, Clone)]
pub struct LogSubject {
    pub name: String,
    pub level: u16,
    pub class: Class,
}

/// A log line: `[timestamp] Level <level> <class> (<name>): <message>`, or,
/// before the game state is known, `[timestamp] USER '<username>' (STATE
/// UNPOPULATED): <message>`; names are masked when hidden.
pub open spec fn spec_log_line(
    settings: LogSettings,
    subject: Option<LogSubject>,
    username: Seq<char>,
    message: Seq<char>,
    timestamp: Seq<char>,
) -> Seq<char> {
    match subject {
        Some(s) => "["@ + timestamp + "] Level "@ + spec_decimal(s.level as nat) + " "@ + spec_class_name(
            s.class,
        ) + " ("@ + spec_shown_name(settings, s.name@) + "): "@ + message,
        None => "["@ + timestamp + "] USER '"@ + spec_shown_name(settings, username) + "' (STATE UNPOPULATED): "@
            + message,
    }
}

/// A log line about a character.
pub fn log_line(
    settings: &LogSettings,
    subject: &Option<LogSubject>,
    username: &str,
    message: &str,
    timestamp: &str,
) -> (r: String)
    ensures
        r@ == spec_log_line(*settings, *subject, username@, message@, timestamp@),
{
    let mut out: Vec<char> = Vec::new();
    push_str(&mut out, "[");
    push_str(&mut out, timestamp);
    match subject {
        Some(s) => {
            push_str(&mut out, "] Level ");
            push_decimal(&mut out, s.level as u64);
            push_str(&mut out, " ");
            push_str(&mut out, get_class_name(s.class));
            push_str(&mut out, " (");
            push_shown_name(&mut out, settings, s.name.as_str());
            push_str(&mut out, "): ");
            push_str(&mut out, message);
        },
        None => {
            push_str(&mut out, "] USER '");
            push_shown_name(&mut out, settings, username);
            push_str(&mut out, "' (STATE UNPOPULATED): ");
            push_str(&mut out, message);
        },
    }
    string_from_chars(out)
}

} // verus!

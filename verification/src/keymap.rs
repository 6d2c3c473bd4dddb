//! Key names and modifier names: the macOS virtual key code of a key, the event flag of a modifier.
//!
//! Key codes are the `kVK_*` values of Carbon's `HIToolbox/Events.h`; flag bits are the
//! `NX_*MASK` values of IOKit's `IOLLEvent.h`.

use vstd::prelude::*;

use crate::text::{lower, lower_chars, spells, texts};

verus! {

/// The virtual key code of a key name written in lower case.
pub open spec fn code_of(n: Seq<char>) -> Option<u16> {
    if n == "a"@ {
        Some(0)
    } else if n == "s"@ {
        Some(1)
    } else if n == "d"@ {
        Some(2)
    } else if n == "f"@ {
        Some(3)
    } else if n == "h"@ {
        Some(4)
    } else if n == "g"@ {
        Some(5)
    } else if n == "z"@ {
        Some(6)
    } else if n == "x"@ {
        Some(7)
    } else if n == "c"@ {
        Some(8)
    } else if n == "v"@ {
        Some(9)
    } else if n == "b"@ {
        Some(11)
    } else if n == "q"@ {
        Some(12)
    } else if n == "w"@ {
        Some(13)
    } else if n == "e"@ {
        Some(14)
    } else if n == "r"@ {
        Some(15)
    } else if n == "y"@ {
        Some(16)
    } else if n == "t"@ {
        Some(17)
    } else if n == "o"@ {
        Some(31)
    } else if n == "u"@ {
        Some(32)
    } else if n == "i"@ {
        Some(34)
    } else if n == "p"@ {
        Some(35)
    } else if n == "l"@ {
        Some(37)
    } else if n == "j"@ {
        Some(38)
    } else if n == "k"@ {
        Some(40)
    } else if n == "n"@ {
        Some(45)
    } else if n == "m"@ {
        Some(46)
    } else if n == "1"@ {
        Some(18)
    } else if n == "2"@ {
        Some(19)
    } else if n == "3"@ {
        Some(20)
    } else if n == "4"@ {
        Some(21)
    } else if n == "5"@ {
        Some(23)
    } else if n == "6"@ {
        Some(22)
    } else if n == "7"@ {
        Some(26)
    } else if n == "8"@ {
        Some(28)
    } else if n == "9"@ {
        Some(25)
    } else if n == "0"@ {
        Some(29)
    } else if n == "return"@ || n == "enter"@ {
        Some(36)
    } else if n == "tab"@ {
        Some(48)
    } else if n == "space"@ {
        Some(49)
    } else if n == "delete"@ || n == "backspace"@ {
        Some(51)
    } else if n == "escape"@ || n == "esc"@ {
        Some(53)
    } else if n == "forward_delete"@ {
        Some(117)
    } else if n == "left"@ {
        Some(123)
    } else if n == "right"@ {
        Some(124)
    } else if n == "down"@ {
        Some(125)
    } else if n == "up"@ {
        Some(126)
    } else if n == "home"@ {
        Some(115)
    } else if n == "end"@ {
        Some(119)
    } else if n == "page_up"@ || n == "pageup"@ {
        Some(116)
    } else if n == "page_down"@ || n == "pagedown"@ {
        Some(121)
    } else if n == "f1"@ {
        Some(122)
    } else if n == "f2"@ {
        Some(120)
    } else if n == "f3"@ {
        Some(99)
    } else if n == "f4"@ {
        Some(118)
    } else if n == "f5"@ {
        Some(96)
    } else if n == "f6"@ {
        Some(97)
    } else if n == "f7"@ {
        Some(98)
    } else if n == "f8"@ {
        Some(100)
    } else if n == "f9"@ {
        Some(101)
    } else if n == "f10"@ {
        Some(109)
    } else if n == "f11"@ {
        Some(103)
    } else if n == "f12"@ {
        Some(111)
    } else if n == "minus"@ || n == "-"@ {
        Some(27)
    } else if n == "equal"@ || n == "="@ {
        Some(24)
    } else if n == "left_bracket"@ || n == "["@ {
        Some(33)
    } else if n == "right_bracket"@ || n == "]"@ {
        Some(30)
    } else if n == "backslash"@ || n == "\\"@ {
        Some(42)
    } else if n == "semicolon"@ || n == ";"@ {
        Some(41)
    } else if n == "quote"@ || n == "'"@ {
        Some(39)
    } else if n == "comma"@ || n == ","@ {
        Some(43)
    } else if n == "period"@ || n == "."@ {
        Some(47)
    } else if n == "slash"@ || n == "/"@ {
        Some(44)
    } else if n == "grave"@ || n == "`"@ {
        Some(50)
    } else {
        None
    }
}

/// Resolves a key name, in any ASCII case, to its virtual key code.
pub fn key_code(name: &str) -> (r: Option<u16>)
    ensures
        r == code_of(lower(name@)),
{
    let n: Vec<char> = lower_chars(name);
    if spells(&n, "a") {
        Some(0)
    } else if spells(&n, "s") {
        Some(1)
    } else if spells(&n, "d") {
        Some(2)
    } else if spells(&n, "f") {
        Some(3)
    } else if spells(&n, "h") {
        Some(4)
    } else if spells(&n, "g") {
        Some(5)
    } else if spells(&n, "z") {
        Some(6)
    } else if spells(&n, "x") {
        Some(7)
    } else if spells(&n, "c") {
        Some(8)
    } else if spells(&n, "v") {
        Some(9)
    } else if spells(&n, "b") {
        Some(11)
    } else if spells(&n, "q") {
        Some(12)
    } else if spells(&n, "w") {
        Some(13)
    } else if spells(&n, "e") {
        Some(14)
    } else if spells(&n, "r") {
        Some(15)
    } else if spells(&n, "y") {
        Some(16)
    } else if spells(&n, "t") {
        Some(17)
    } else if spells(&n, "o") {
        Some(31)
    } else if spells(&n, "u") {
        Some(32)
    } else if spells(&n, "i") {
        Some(34)
    } else if spells(&n, "p") {
        Some(35)
    } else if spells(&n, "l") {
        Some(37)
    } else if spells(&n, "j") {
        Some(38)
    } else if spells(&n, "k") {
        Some(40)
    } else if spells(&n, "n") {
        Some(45)
    } else if spells(&n, "m") {
        Some(46)
    } else if spells(&n, "1") {
        Some(18)
    } else if spells(&n, "2") {
        Some(19)
    } else if spells(&n, "3") {
        Some(20)
    } else if spells(&n, "4") {
        Some(21)
    } else if spells(&n, "5") {
        Some(23)
    } else if spells(&n, "6") {
        Some(22)
    } else if spells(&n, "7") {
        Some(26)
    } else if spells(&n, "8") {
        Some(28)
    } else if spells(&n, "9") {
        Some(25)
    } else if spells(&n, "0") {
        Some(29)
    } else if spells(&n, "return") || spells(&n, "enter") {
        Some(36)
    } else if spells(&n, "tab") {
        Some(48)
    } else if spells(&n, "space") {
        Some(49)
    } else if spells(&n, "delete") || spells(&n, "backspace") {
        Some(51)
    } else if spells(&n, "escape") || spells(&n, "esc") {
        Some(53)
    } else if spells(&n, "forward_delete") {
        Some(117)
    } else if spells(&n, "left") {
        Some(123)
    } else if spells(&n, "right") {
        Some(124)
    } else if spells(&n, "down") {
        Some(125)
    } else if spells(&n, "up") {
        Some(126)
    } else if spells(&n, "home") {
        Some(115)
    } else if spells(&n, "end") {
        Some(119)
    } else if spells(&n, "page_up") || spells(&n, "pageup") {
        Some(116)
    } else if spells(&n, "page_down") || spells(&n, "pagedown") {
        Some(121)
    } else if spells(&n, "f1") {
        Some(122)
    } else if spells(&n, "f2") {
        Some(120)
    } else if spells(&n, "f3") {
        Some(99)
    } else if spells(&n, "f4") {
        Some(118)
    } else if spells(&n, "f5") {
        Some(96)
    } else if spells(&n, "f6") {
        Some(97)
    } else if spells(&n, "f7") {
        Some(98)
    } else if spells(&n, "f8") {
        Some(100)
    } else if spells(&n, "f9") {
        Some(101)
    } else if spells(&n, "f10") {
        Some(109)
    } else if spells(&n, "f11") {
        Some(103)
    } else if spells(&n, "f12") {
        Some(111)
    } else if spells(&n, "minus") || spells(&n, "-") {
        Some(27)
    } else if spells(&n, "equal") || spells(&n, "=") {
        Some(24)
    } else if spells(&n, "left_bracket") || spells(&n, "[") {
        Some(33)
    } else if spells(&n, "right_bracket") || spells(&n, "]") {
        Some(30)
    } else if spells(&n, "backslash") || spells(&n, "\\") {
        Some(42)
    } else if spells(&n, "semicolon") || spells(&n, ";") {
        Some(41)
    } else if spells(&n, "quote") || spells(&n, "'") {
        Some(39)
    } else if spells(&n, "comma") || spells(&n, ",") {
        Some(43)
    } else if spells(&n, "period") || spells(&n, ".") {
        Some(47)
    } else if spells(&n, "slash") || spells(&n, "/") {
        Some(44)
    } else if spells(&n, "grave") || spells(&n, "`") {
        Some(50)
    } else {
        None
    }
}

/// A set of modifier keys held down with a keystroke.
#[derive(Clone, Copy, Debug, PartialEq, Eq, Structural)]
pub struct EventFlags {
    pub command: bool,
    pub shift: bool,
    pub alternate: bool,
    pub control: bool,
    pub secondary_fn: bool,
}

pub const SHIFT_BIT: u64 = 0x0002_0000;

pub const CONTROL_BIT: u64 = 0x0004_0000;

pub const ALTERNATE_BIT: u64 = 0x0008_0000;

pub const COMMAND_BIT: u64 = 0x0010_0000;

pub const SECONDARY_FN_BIT: u64 = 0x0080_0000;

/// No modifier at all.
pub open spec fn no_flags() -> EventFlags {
    EventFlags {
        command: false,
        shift: false,
        alternate: false,
        control: false,
        secondary_fn: false,
    }
}

pub open spec fn command_flag() -> EventFlags {
    EventFlags { command: true, ..no_flags() }
}

pub open spec fn shift_flag() -> EventFlags {
    EventFlags { shift: true, ..no_flags() }
}

pub open spec fn alternate_flag() -> EventFlags {
    EventFlags { alternate: true, ..no_flags() }
}

pub open spec fn control_flag() -> EventFlags {
    EventFlags { control: true, ..no_flags() }
}

pub open spec fn secondary_fn_flag() -> EventFlags {
    EventFlags { secondary_fn: true, ..no_flags() }
}

/// One bit of a flag word, or nothing.
pub open spec fn bit_if(on: bool, bit: u64) -> int {
    if on {
        bit as int
    } else {
        0
    }
}

impl EventFlags {
    /// The flag word that stands for this set: the sum of its modifiers' distinct bits.
    pub open spec fn word(self) -> int {
        bit_if(self.command, COMMAND_BIT) + bit_if(self.shift, SHIFT_BIT) + bit_if(
            self.alternate,
            ALTERNATE_BIT,
        ) + bit_if(self.control, CONTROL_BIT) + bit_if(self.secondary_fn, SECONDARY_FN_BIT)
    }

    /// The set without any modifier.
    pub fn empty() -> (r: EventFlags)
        ensures
            r == no_flags(),
    {
        EventFlags {
            command: false,
            shift: false,
            alternate: false,
            control: false,
            secondary_fn: false,
        }
    }

    /// The modifiers of both sets.
    pub fn union(self, other: EventFlags) -> (r: EventFlags)
        ensures
            r.command == (self.command || other.command),
            r.shift == (self.shift || other.shift),
            r.alternate == (self.alternate || other.alternate),
            r.control == (self.control || other.control),
            r.secondary_fn == (self.secondary_fn || other.secondary_fn),
    {
        EventFlags {
            command: self.command || other.command,
            shift: self.shift || other.shift,
            alternate: self.alternate || other.alternate,
            control: self.control || other.control,
            secondary_fn: self.secondary_fn || other.secondary_fn,
        }
    }

    /// The flag word to set on an event.
    pub fn bits(self) -> (r: u64)
        ensures
            r == self.word(),
    {
        let mut w: u64 = 0;
        if self.command {
            w += COMMAND_BIT;
        }
        if self.shift {
            w += SHIFT_BIT;
        }
        if self.alternate {
            w += ALTERNATE_BIT;
        }
        if self.control {
            w += CONTROL_BIT;
        }
        if self.secondary_fn {
            w += SECONDARY_FN_BIT;
        }
        w
    }
}

/// The flag of a modifier name written in lower case.
pub open spec fn flag_of(n: Seq<char>) -> Option<EventFlags> {
    if n == "cmd"@ || n == "command"@ || n == "super"@ {
        Some(command_flag())
    } else if n == "shift"@ {
        Some(shift_flag())
    } else if n == "opt"@ || n == "option"@ || n == "alt"@ {
        Some(alternate_flag())
    } else if n == "ctrl"@ || n == "control"@ {
        Some(control_flag())
    } else if n == "fn"@ || n == "function"@ {
        Some(secondary_fn_flag())
    } else {
        None
    }
}

/// Resolves a modifier name, in any ASCII case, to its flag.
pub fn modifier_flag(name: &str) -> (r: Option<EventFlags>)
    ensures
        r == flag_of(lower(name@)),
{
    let n: Vec<char> = lower_chars(name);
    let mut f: EventFlags = EventFlags::empty();
    if spells(&n, "cmd") || spells(&n, "command") || spells(&n, "super") {
        f.command = true;
    } else if spells(&n, "shift") {
        f.shift = true;
    } else if spells(&n, "opt") || spells(&n, "option") || spells(&n, "alt") {
        f.alternate = true;
    } else if spells(&n, "ctrl") || spells(&n, "control") {
        f.control = true;
    } else if spells(&n, "fn") || spells(&n, "function") {
        f.secondary_fn = true;
    } else {
        return None;
    }
    Some(f)
}

/// Whether some name in the list, in any ASCII case, stands for the given flag.
pub open spec fn names_flag(mods: Seq<Seq<char>>, f: EventFlags) -> bool {
    exists|i: int| 0 <= i < mods.len() && flag_of(lower(#[trigger] mods[i])) == Some(f)
}

/// The flags that a list of modifier names stands for; unknown names add nothing.
pub open spec fn flags_named(mods: Seq<Seq<char>>) -> EventFlags {
    EventFlags {
        command: names_flag(mods, command_flag()),
        shift: names_flag(mods, shift_flag()),
        alternate: names_flag(mods, alternate_flag()),
        control: names_flag(mods, control_flag()),
        secondary_fn: names_flag(mods, secondary_fn_flag()),
    }
}

proof fn lemma_names_flag_push(mods: Seq<Seq<char>>, m: Seq<char>, f: EventFlags)
    ensures
        names_flag(mods.push(m), f) == (names_flag(mods, f) || flag_of(lower(m)) == Some(f)),
{
    let all = mods.push(m);
    if names_flag(mods, f) {
        let i = choose|i: int| 0 <= i < mods.len() && flag_of(lower(#[trigger] mods[i])) == Some(f);
        assert(all[i] == mods[i]);
    }
    assert(all[mods.len() as int] == m);
    if names_flag(all, f) {
        let i = choose|i: int| 0 <= i < all.len() && flag_of(lower(#[trigger] all[i])) == Some(f);
        if i < mods.len() {
            assert(mods[i] == all[i]);
        }
    }
}

/// Combines a list of modifier names into one set of flags. Unknown names are ignored.
pub fn combine_mods(mods: &[String]) -> (r: EventFlags)
    ensures
        r == flags_named(texts(mods@)),
{
    let mut flags: EventFlags = EventFlags::empty();
    let n: usize = mods.len();
    let mut i: usize = 0;
    while i < n
        invariant
            i <= n == mods@.len(),
            flags == flags_named(texts(mods@).take(i as int)),
        decreases n - i,
    {
        proof {
            let seen = texts(mods@).take(i as int);
            let m = mods@[i as int]@;
            assert(texts(mods@).take(i + 1) =~= seen.push(m));
            lemma_names_flag_push(seen, m, command_flag());
            lemma_names_flag_push(seen, m, shift_flag());
            lemma_names_flag_push(seen, m, alternate_flag());
            lemma_names_flag_push(seen, m, control_flag());
            lemma_names_flag_push(seen, m, secondary_fn_flag());
        }
        if let Some(f) = modifier_flag(mods[i].as_str()) {
            flags = flags.union(f);
        }
        i += 1;
    }
    assert(texts(mods@).take(n as int) =~= texts(mods@));
    flags
}

} // verus!

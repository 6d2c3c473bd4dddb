//! What every key name and modifier name stands for.

use vstd::prelude::*;

use crate::keymap::{
    alternate_flag, code_of, command_flag, control_flag, flag_of, flags_named, secondary_fn_flag,
    shift_flag, EventFlags,
};
use crate::tap_laws::holds;
use crate::text::lower;
use crate::text_laws::{lower_case_reads_the_same, no_capitals, reads};

verus! {

/// The modifier words, in the order of their flags: three for command, one for shift, three for
/// alternate, two for control, two for fn.
pub open spec fn modifier_words() -> Seq<Seq<char>> {
    seq![
        "cmd"@,
        "command"@,
        "super"@,
        "shift"@,
        "opt"@,
        "option"@,
        "alt"@,
        "ctrl"@,
        "control"@,
        "fn"@,
        "function"@,
    ]
}

proof fn lemma_words()
    ensures
        forall|i: int| 0 <= i < 11 ==> no_capitals(#[trigger] modifier_words()[i]),
        forall|i: int, j: int|
            0 <= i < 11 && 0 <= j < 11 && i != j ==> #[trigger] modifier_words()[i]
                != #[trigger] modifier_words()[j],
{
    reveal_strlit("cmd");
    reveal_strlit("command");
    reveal_strlit("super");
    reveal_strlit("shift");
    reveal_strlit("opt");
    reveal_strlit("option");
    reveal_strlit("alt");
    reveal_strlit("ctrl");
    reveal_strlit("control");
    reveal_strlit("fn");
    reveal_strlit("function");
    assert("super"@[1] != "shift"@[1]);
    assert("command"@[1] == "control"@[1] && "command"@[2] != "control"@[2]);
    assert("cmd"@[0] != "opt"@[0] && "cmd"@[0] != "alt"@[0] && "opt"@[0] != "alt"@[0]);
    assert("option"@.len() == 6 && "ctrl"@.len() == 4 && "fn"@.len() == 2 && "function"@.len() == 8);
}

/// The name of a modifier, in any ASCII case, stands for its flag alone; no other name stands for
/// any.
pub proof fn modifier_names_stand_for_flags(name: Seq<char>)
    ensures
        ({
            let cmd = reads(name, "cmd"@) || reads(name, "command"@) || reads(name, "super"@);
            let shift = reads(name, "shift"@);
            let opt = reads(name, "opt"@) || reads(name, "option"@) || reads(name, "alt"@);
            let ctrl = reads(name, "ctrl"@) || reads(name, "control"@);
            let fun = reads(name, "fn"@) || reads(name, "function"@);
            &&& flag_of(lower(name)) is Some == (cmd || shift || opt || ctrl || fun)
            &&& flag_of(lower(name)) matches Some(f) ==> f.command == cmd && f.shift == shift
                && f.alternate == opt && f.control == ctrl && f.secondary_fn == fun
        }),
{
    lemma_words();
    let w = modifier_words();
    assert forall|i: int| 0 <= i < 11 implies (lower(name) == #[trigger] w[i]) == reads(
        name,
        w[i],
    ) by {
        lower_case_reads_the_same(name, w[i]);
    }
    assert(w[0] == "cmd"@ && w[1] == "command"@ && w[2] == "super"@ && w[3] == "shift"@);
    assert(w[4] == "opt"@ && w[5] == "option"@ && w[6] == "alt"@ && w[7] == "ctrl"@);
    assert(w[8] == "control"@ && w[9] == "fn"@ && w[10] == "function"@);
}

/// A list of modifier names sets exactly the flags that it spells.
pub proof fn modifier_names_set_their_flags(mods: Seq<Seq<char>>)
    ensures
        holds(flags_named(mods), mods),
{
    assert forall|i: int| 0 <= i < mods.len() implies {
        let f = flag_of(lower(#[trigger] mods[i]));
        let name = mods[i];
        &&& f == Some(command_flag()) <==> (reads(name, "cmd"@) || reads(name, "command"@) || reads(
            name,
            "super"@,
        ))
        &&& f == Some(shift_flag()) <==> reads(name, "shift"@)
        &&& f == Some(alternate_flag()) <==> (reads(name, "opt"@) || reads(name, "option"@)
            || reads(name, "alt"@))
        &&& f == Some(control_flag()) <==> (reads(name, "ctrl"@) || reads(name, "control"@))
        &&& f == Some(secondary_fn_flag()) <==> (reads(name, "fn"@) || reads(name, "function"@))
    } by {
        modifier_names_stand_for_flags(mods[i]);
    }
}

/// The bits of a flag word: each held modifier adds its own.
pub proof fn flag_words_add_up(f: EventFlags)
    ensures
        f.word() == (if f.command {
            0x10_0000
        } else {
            0int
        }) + (if f.shift {
            0x2_0000
        } else {
            0int
        }) + (if f.alternate {
            0x8_0000
        } else {
            0int
        }) + (if f.control {
            0x4_0000
        } else {
            0int
        }) + (if f.secondary_fn {
            0x80_0000
        } else {
            0int
        }),
{
}

/// The names of the key with a virtual key code: one, or two for some keys.
pub open spec fn names_of(code: u16) -> (Seq<char>, Option<Seq<char>>) {
    match code {
        0 => ("a"@, None),
        1 => ("s"@, None),
        2 => ("d"@, None),
        3 => ("f"@, None),
        4 => ("h"@, None),
        5 => ("g"@, None),
        6 => ("z"@, None),
        7 => ("x"@, None),
        8 => ("c"@, None),
        9 => ("v"@, None),
        11 => ("b"@, None),
        12 => ("q"@, None),
        13 => ("w"@, None),
        14 => ("e"@, None),
        15 => ("r"@, None),
        16 => ("y"@, None),
        17 => ("t"@, None),
        18 => ("1"@, None),
        19 => ("2"@, None),
        20 => ("3"@, None),
        21 => ("4"@, None),
        22 => ("6"@, None),
        23 => ("5"@, None),
        24 => ("equal"@, Some("="@)),
        25 => ("9"@, None),
        26 => ("7"@, None),
        27 => ("minus"@, Some("-"@)),
        28 => ("8"@, None),
        29 => ("0"@, None),
        30 => ("right_bracket"@, Some("]"@)),
        31 => ("o"@, None),
        32 => ("u"@, None),
        33 => ("left_bracket"@, Some("["@)),
        34 => ("i"@, None),
        35 => ("p"@, None),
        36 => ("return"@, Some("enter"@)),
        37 => ("l"@, None),
        38 => ("j"@, None),
        39 => ("quote"@, Some("'"@)),
        40 => ("k"@, None),
        41 => ("semicolon"@, Some(";"@)),
        42 => ("backslash"@, Some("\\"@)),
        43 => ("comma"@, Some(","@)),
        44 => ("slash"@, Some("/"@)),
        45 => ("n"@, None),
        46 => ("m"@, None),
        47 => ("period"@, Some("."@)),
        48 => ("tab"@, None),
        49 => ("space"@, None),
        50 => ("grave"@, Some("`"@)),
        51 => ("delete"@, Some("backspace"@)),
        53 => ("escape"@, Some("esc"@)),
        96 => ("f5"@, None),
        97 => ("f6"@, None),
        98 => ("f7"@, None),
        99 => ("f3"@, None),
        100 => ("f8"@, None),
        101 => ("f9"@, None),
        103 => ("f11"@, None),
        109 => ("f10"@, None),
        111 => ("f12"@, None),
        115 => ("home"@, None),
        116 => ("page_up"@, Some("pageup"@)),
        117 => ("forward_delete"@, None),
        118 => ("f4"@, None),
        119 => ("end"@, None),
        120 => ("f2"@, None),
        121 => ("page_down"@, Some("pagedown"@)),
        122 => ("f1"@, None),
        123 => ("left"@, None),
        124 => ("right"@, None),
        125 => ("down"@, None),
        126 => ("up"@, None),
        _ => (""@, None),
    }
}

/// Whether a virtual key code is that of a key with a name.
pub open spec fn has_name(code: u16) -> bool {
    names_of(code).0.len() > 0
}

/// The character at a place of a text as a number; 0 past its end.
spec fn char_at(s: Seq<char>, i: int) -> int {
    if 0 <= i < s.len() {
        s[i] as int
    } else {
        0
    }
}

/// A number that no two key names share: made of the length, the first three characters and the
/// last one.
spec fn mark(s: Seq<char>) -> int {
    s.len() + 100 * char_at(s, 0) + 20_000 * char_at(s, 1) + 4_000_000 * char_at(s, 2)
        + 800_000_000 * char_at(s, s.len() - 1)
}

/// A name in lower case has a key code exactly where it is one of the names of the key with that
/// code.
#[verifier::rlimit(60)]
pub proof fn key_codes_and_names_agree(n: Seq<char>, c: u16)
    ensures
        code_of(n) == Some(c) <==> has_name(c) && (n == names_of(c).0 || names_of(c).1 == Some(n)),
{
    reveal_strlit("");
    assert(mark(""@) == 0);
    reveal_strlit("a");
    assert(mark("a"@) == 77600009701);
    reveal_strlit("s");
    assert(mark("s"@) == 92000011501);
    reveal_strlit("d");
    assert(mark("d"@) == 80000010001);
    reveal_strlit("f");
    assert(mark("f"@) == 81600010201);
    reveal_strlit("h");
    assert(mark("h"@) == 83200010401);
    reveal_strlit("g");
    assert(mark("g"@) == 82400010301);
    reveal_strlit("z");
    assert(mark("z"@) == 97600012201);
    reveal_strlit("x");
    assert(mark("x"@) == 96000012001);
    reveal_strlit("c");
    assert(mark("c"@) == 79200009901);
    reveal_strlit("v");
    assert(mark("v"@) == 94400011801);
    reveal_strlit("b");
    assert(mark("b"@) == 78400009801);
    reveal_strlit("q");
    assert(mark("q"@) == 90400011301);
    reveal_strlit("w");
    assert(mark("w"@) == 95200011901);
    reveal_strlit("e");
    assert(mark("e"@) == 80800010101);
    reveal_strlit("r");
    assert(mark("r"@) == 91200011401);
    reveal_strlit("y");
    assert(mark("y"@) == 96800012101);
    reveal_strlit("t");
    assert(mark("t"@) == 92800011601);
    reveal_strlit("1");
    assert(mark("1"@) == 39200004901);
    reveal_strlit("2");
    assert(mark("2"@) == 40000005001);
    reveal_strlit("3");
    assert(mark("3"@) == 40800005101);
    reveal_strlit("4");
    assert(mark("4"@) == 41600005201);
    reveal_strlit("6");
    assert(mark("6"@) == 43200005401);
    reveal_strlit("5");
    assert(mark("5"@) == 42400005301);
    reveal_strlit("equal");
    assert(mark("equal"@) == 86870270105);
    reveal_strlit("=");
    assert(mark("="@) == 48800006101);
    reveal_strlit("9");
    assert(mark("9"@) == 45600005701);
    reveal_strlit("7");
    assert(mark("7"@) == 44000005501);
    reveal_strlit("minus");
    assert(mark("minus"@) == 92442110905);
    reveal_strlit("-");
    assert(mark("-"@) == 36000004501);
    reveal_strlit("8");
    assert(mark("8"@) == 44800005601);
    reveal_strlit("0");
    assert(mark("0"@) == 38400004801);
    reveal_strlit("right_bracket");
    assert(mark("right_bracket"@) == 93214111413);
    reveal_strlit("]");
    assert(mark("]"@) == 74400009301);
    reveal_strlit("o");
    assert(mark("o"@) == 88800011101);
    reveal_strlit("u");
    assert(mark("u"@) == 93600011701);
    reveal_strlit("left_bracket");
    assert(mark("left_bracket"@) == 93210030812);
    reveal_strlit("[");
    assert(mark("["@) == 72800009101);
    reveal_strlit("i");
    assert(mark("i"@) == 84000010501);
    reveal_strlit("p");
    assert(mark("p"@) == 89600011201);
    reveal_strlit("return");
    assert(mark("return"@) == 88466031406);
    reveal_strlit("enter");
    assert(mark("enter"@) == 91666210105);
    reveal_strlit("l");
    assert(mark("l"@) == 86400010801);
    reveal_strlit("j");
    assert(mark("j"@) == 84800010601);
    reveal_strlit("quote");
    assert(mark("quote"@) == 81246351305);
    reveal_strlit("'");
    assert(mark("'"@) == 31200003901);
    reveal_strlit("k");
    assert(mark("k"@) == 85600010701);
    reveal_strlit("semicolon");
    assert(mark("semicolon"@) == 88438031509);
    reveal_strlit(";");
    assert(mark(";"@) == 47200005901);
    reveal_strlit("backslash");
    assert(mark("backslash"@) == 83597949809);
    reveal_strlit("\\");
    assert(mark("\\"@) == 73600009201);
    reveal_strlit("comma");
    assert(mark("comma"@) == 78038229905);
    reveal_strlit(",");
    assert(mark(","@) == 35200004401);
    reveal_strlit("slash");
    assert(mark("slash"@) == 83590171505);
    reveal_strlit("/");
    assert(mark("/"@) == 37600004701);
    reveal_strlit("n");
    assert(mark("n"@) == 88000011001);
    reveal_strlit("m");
    assert(mark("m"@) == 87200010901);
    reveal_strlit("period");
    assert(mark("period"@) == 80458031206);
    reveal_strlit(".");
    assert(mark("."@) == 36800004601);
    reveal_strlit("tab");
    assert(mark("tab"@) == 78793951603);
    reveal_strlit("space");
    assert(mark("space"@) == 81190251505);
    reveal_strlit("grave");
    assert(mark("grave"@) == 81190290305);
    reveal_strlit("`");
    assert(mark("`"@) == 76800009601);
    reveal_strlit("delete");
    assert(mark("delete"@) == 81234030006);
    reveal_strlit("backspace");
    assert(mark("backspace"@) == 81197949809);
    reveal_strlit("escape");
    assert(mark("escape"@) == 81198310106);
    reveal_strlit("esc");
    assert(mark("esc"@) == 79598310103);
    reveal_strlit("f5");
    assert(mark("f5"@) == 42401070202);
    reveal_strlit("f6");
    assert(mark("f6"@) == 43201090202);
    reveal_strlit("f7");
    assert(mark("f7"@) == 44001110202);
    reveal_strlit("f3");
    assert(mark("f3"@) == 40801030202);
    reveal_strlit("f8");
    assert(mark("f8"@) == 44801130202);
    reveal_strlit("f9");
    assert(mark("f9"@) == 45601150202);
    reveal_strlit("f11");
    assert(mark("f11"@) == 39396990203);
    reveal_strlit("f10");
    assert(mark("f10"@) == 38592990203);
    reveal_strlit("f12");
    assert(mark("f12"@) == 40200990203);
    reveal_strlit("home");
    assert(mark("home"@) == 81238230404);
    reveal_strlit("page_up");
    assert(mark("page_up"@) == 90013951207);
    reveal_strlit("pageup");
    assert(mark("pageup"@) == 90013951206);
    reveal_strlit("forward_delete");
    assert(mark("forward_delete"@) == 81258230214);
    reveal_strlit("f4");
    assert(mark("f4"@) == 41601050202);
    reveal_strlit("end");
    assert(mark("end"@) == 80402210103);
    reveal_strlit("f2");
    assert(mark("f2"@) == 40001010202);
    reveal_strlit("page_down");
    assert(mark("page_down"@) == 88413951209);
    reveal_strlit("pagedown");
    assert(mark("pagedown"@) == 88413951208);
    reveal_strlit("f1");
    assert(mark("f1"@) == 39200990202);
    reveal_strlit("left");
    assert(mark("left"@) == 93210030804);
    reveal_strlit("right");
    assert(mark("right"@) == 93214111405);
    reveal_strlit("down");
    assert(mark("down"@) == 88478230004);
    reveal_strlit("up");
    assert(mark("up"@) == 89602251702);
}

} // verus!

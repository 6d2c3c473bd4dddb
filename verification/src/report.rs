//! The summary of a configuration that is printed when it takes effect.

use vstd::prelude::*;
use vstd::string::*;

use crate::config::{Config, ConfigView, DeviceConfig, DeviceConfigView, ScrollConfig};
use crate::engine::{describe, described};
use crate::lists::{gather, note};
use crate::text::{decimal, decimal_signed, decimal_text, signed_text, texts};
use crate::validate::{line_if, name_or};

verus! {

pub open spec fn bulleted(problems: Seq<Seq<char>>) -> spec_fn(int) -> Seq<Seq<char>> {
    |i: int| seq!["  - "@ + problems[i]]
}

/// The lines that report the problems of a configuration; none where it has none.
pub open spec fn problem_report(problems: Seq<Seq<char>>) -> Seq<Seq<char>> {
    if problems.len() == 0 {
        Seq::empty()
    } else {
        seq!["Config problems (these mappings will be no-ops):"@] + gather(
            problems.len(),
            bulleted(problems),
        ) + seq![""@]
    }
}

/// The lines about a configuration's problems, for the error stream.
pub fn problem_lines(config: &Config) -> (r: Vec<String>)
    ensures
        texts(r@) == problem_report(config@.problems()),
{
    let problems: Vec<String> = config.validate();
    let mut out: Vec<String> = Vec::new();
    if problems.len() > 0 {
        note(&mut out, "Config problems (these mappings will be no-ops):".to_owned());
        let ghost head = texts(out@);
        assert(head =~= seq!["Config problems (these mappings will be no-ops):"@]);
        let ghost f = bulleted(texts(problems@));
        let n: usize = problems.len();
        let mut i: usize = 0;
        while i < n
            invariant
                i <= n == problems@.len(),
                f == bulleted(texts(problems@)),
                texts(out@) =~= head + gather(i as nat, f),
            decreases n - i,
        {
            let mut s: String = "  - ".to_owned();
            s.append(problems[i].as_str());
            note(&mut out, s);
            assert(f(i as int) =~= seq!["  - "@ + texts(problems@)[i as int]]);
            i += 1;
        }
        note(&mut out, "".to_owned());
    }
    assert(texts(out@) =~= problem_report(config@.problems()));
    out
}

/// The number of mappings of a list of devices, of both kinds.
pub open spec fn mapping_count(devs: Seq<DeviceConfigView>) -> nat
    decreases devs.len(),
{
    if devs.len() == 0 {
        0
    } else {
        mapping_count(devs.drop_last()) + devs.last().mapping.len() + devs.last().key.len()
    }
}

proof fn lemma_count_grows(devs: Seq<DeviceConfigView>, i: int)
    requires
        0 <= i <= devs.len(),
    ensures
        mapping_count(devs.take(i)) <= mapping_count(devs),
    decreases devs.len(),
{
    if i < devs.len() {
        lemma_count_grows(devs.drop_last(), i);
        assert(devs.drop_last().take(i) =~= devs.take(i));
    } else {
        assert(devs.take(i) =~= devs);
    }
}

/// The lines about the scroll settings that are on.
pub open spec fn scroll_report(scroll: ScrollConfig) -> Seq<Seq<char>> {
    line_if(
        scroll.jitter_filter,
        "Scroll-wheel jitter filter: ON (reversal guard "@ + decimal(
            scroll.reversal_guard_ms as nat,
        ) + " ms)."@,
    ) + line_if(
        scroll.boost_weak_ticks,
        "Weak-tick boost: ON (floor "@ + decimal_signed(scroll.min_tick_pixels as int)
            + " px/line)."@,
    )
}

pub open spec fn button_line(dev: DeviceConfigView) -> spec_fn(int) -> Seq<Seq<char>> {
    |i: int|
        seq![
            "    button "@ + decimal_signed(dev.mapping[i].button as int) + " -> "@ + described(
                dev.mapping[i].action,
            ),
        ]
}

pub open spec fn key_line(dev: DeviceConfigView) -> spec_fn(int) -> Seq<Seq<char>> {
    |i: int| seq!["    key '"@ + dev.key[i].key + "' -> "@ + described(dev.key[i].action)]
}

/// The lines about a device: its name and identity, then its mappings.
pub open spec fn device_report(dev: DeviceConfigView) -> Seq<Seq<char>> {
    seq!["  "@ + name_or(dev.name, "<unnamed>"@) + " ("@ + dev.ident_desc() + ")"@] + gather(
        dev.mapping.len(),
        button_line(dev),
    ) + gather(dev.key.len(), key_line(dev))
}

pub open spec fn device_entry(devs: Seq<DeviceConfigView>) -> spec_fn(int) -> Seq<Seq<char>> {
    |i: int| device_report(devs[i])
}

impl ConfigView {
    /// The summary of a configuration: its scroll settings, then its devices and their mappings.
    pub open spec fn summary(self) -> Seq<Seq<char>> {
        scroll_report(self.scroll) + if mapping_count(self.device) == 0 {
            seq!["No mappings configured — nothing to remap. Add some to your config."@, ""@]
        } else {
            seq!["Loaded "@ + decimal(mapping_count(self.device)) + " mapping(s):"@] + gather(
                self.device.len(),
                device_entry(self.device),
            ) + seq![""@]
        }
    }
}

fn note_device(out: &mut Vec<String>, dev: &DeviceConfig)
    ensures
        texts(final(out)@) == texts(old(out)@) + device_report(dev@),
{
    let ghost start = texts(out@);
    let mut s: String = "  ".to_owned();
    match &dev.name {
        Some(name) => s.append(name.as_str()),
        None => s.append("<unnamed>"),
    }
    s.append(" (");
    s.append(dev.ident_desc().as_str());
    s.append(")");
    note(out, s);
    let ghost g0 = seq![
        "  "@ + name_or(dev@.name, "<unnamed>"@) + " ("@ + dev@.ident_desc() + ")"@,
    ];
    assert(texts(out@) =~= start + g0);
    let ghost fm = button_line(dev@);
    let mn: usize = dev.mapping.len();
    let mut m: usize = 0;
    while m < mn
        invariant
            m <= mn == dev.mapping@.len(),
            fm == button_line(dev@),
            texts(out@) =~= start + g0 + gather(m as nat, fm),
        decreases mn - m,
    {
        let ghost before = texts(out@);
        let mut s: String = "    button ".to_owned();
        s.append(signed_text(dev.mapping[m].button).as_str());
        s.append(" -> ");
        s.append(describe(&dev.mapping[m].action).as_str());
        note(out, s);
        assert(texts(out@) =~= before + fm(m as int));
        m += 1;
    }
    let ghost g1 = gather(mn as nat, fm);
    let ghost fk = key_line(dev@);
    let kn: usize = dev.key.len();
    let mut k: usize = 0;
    while k < kn
        invariant
            k <= kn == dev.key@.len(),
            fk == key_line(dev@),
            texts(out@) =~= start + g0 + g1 + gather(k as nat, fk),
        decreases kn - k,
    {
        let ghost before = texts(out@);
        let mut s: String = "    key '".to_owned();
        s.append(dev.key[k].key.as_str());
        s.append("' -> ");
        s.append(describe(&dev.key[k].action).as_str());
        note(out, s);
        assert(texts(out@) =~= before + fk(k as int));
        k += 1;
    }
    assert(texts(out@) =~= start + device_report(dev@));
}

fn count_mappings(config: &Config) -> (r: usize)
    requires
        mapping_count(config@.device) <= usize::MAX,
    ensures
        r == mapping_count(config@.device),
{
    let ghost devs = config@.device;
    let mut count: usize = 0;
    let n: usize = config.device.len();
    let mut i: usize = 0;
    while i < n
        invariant
            i <= n == config.device@.len(),
            devs == config@.device,
            mapping_count(devs) <= usize::MAX,
            count == mapping_count(devs.take(i as int)),
        decreases n - i,
    {
        proof {
            lemma_count_grows(devs, i + 1);
            assert(devs.take(i + 1).drop_last() =~= devs.take(i as int));
        }
        count = count + config.device[i].mapping.len() + config.device[i].key.len();
        i += 1;
    }
    assert(devs.take(n as int) =~= devs);
    count
}

/// Whether the mappings of a configuration can be counted within the machine's range.
pub fn countable(config: &Config) -> (r: bool)
    ensures
        r == (mapping_count(config@.device) <= usize::MAX),
{
    let ghost devs = config@.device;
    let mut count: usize = 0;
    let n: usize = config.device.len();
    let mut i: usize = 0;
    while i < n
        invariant
            i <= n == config.device@.len(),
            devs == config@.device,
            count == mapping_count(devs.take(i as int)),
        decreases n - i,
    {
        proof {
            lemma_count_grows(devs, i + 1);
            assert(devs.take(i + 1).drop_last() =~= devs.take(i as int));
        }
        let with_buttons: usize = match count.checked_add(config.device[i].mapping.len()) {
            Some(c) => c,
            None => {
                return false;
            },
        };
        count = match with_buttons.checked_add(config.device[i].key.len()) {
            Some(c) => c,
            None => {
                return false;
            },
        };
        i += 1;
    }
    assert(devs.take(n as int) =~= devs);
    true
}

/// The lines that sum up a configuration, for the output stream. Ask `countable` first.
pub fn startup_lines(config: &Config) -> (r: Vec<String>)
    requires
        mapping_count(config@.device) <= usize::MAX,
    ensures
        texts(r@) == config@.summary(),
{
    let mut out: Vec<String> = Vec::new();
    if config.scroll.jitter_filter {
        let mut s: String = "Scroll-wheel jitter filter: ON (reversal guard ".to_owned();
        s.append(decimal_text(config.scroll.reversal_guard_ms).as_str());
        s.append(" ms).");
        note(&mut out, s);
    }
    if config.scroll.boost_weak_ticks {
        let mut s: String = "Weak-tick boost: ON (floor ".to_owned();
        s.append(signed_text(config.scroll.min_tick_pixels).as_str());
        s.append(" px/line).");
        note(&mut out, s);
    }
    let ghost g0 = scroll_report(config@.scroll);
    assert(texts(out@) =~= g0);
    let count: usize = count_mappings(config);
    if count == 0 {
        note(
            &mut out,
            "No mappings configured — nothing to remap. Add some to your config.".to_owned(),
        );
        note(&mut out, "".to_owned());
        assert(texts(out@) =~= config@.summary());
        return out;
    }
    let mut s: String = "Loaded ".to_owned();
    s.append(decimal_text(count as u64).as_str());
    s.append(" mapping(s):");
    note(&mut out, s);
    let ghost g1 = seq!["Loaded "@ + decimal(count as nat) + " mapping(s):"@];
    assert(texts(out@) =~= g0 + g1);
    let ghost f = device_entry(config@.device);
    let n: usize = config.device.len();
    let mut i: usize = 0;
    while i < n
        invariant
            i <= n == config.device@.len(),
            f == device_entry(config@.device),
            texts(out@) =~= g0 + g1 + gather(i as nat, f),
        decreases n - i,
    {
        note_device(&mut out, &config.device[i]);
        assert(f(i as int) == device_report(config.device@[i as int]@));
        i += 1;
    }
    note(&mut out, "".to_owned());
    assert(texts(out@) =~= config@.summary());
    out
}

} // verus!

//! The welcome that ends an installation.
//!
//! The welcome is a greeting, a rule and a few facts about the machine. The lines of it are
//! put together here; reading the facts off the machine and printing the lines is left to
//! the caller.

use vstd::prelude::*;
use vstd::string::StringExecFns;

verus! {

/// The number of prompts to choose from.
pub const PROMPT_COUNT: usize = 18;

/// The width of the rule between the greeting and the facts.
pub const RULE_WIDTH: usize = 80;

/// What is shown for a fact that the machine does not tell.
pub const UNKNOWN: &'static str = "UNKNOWN";

/// The prompt number `index`.
pub open spec fn prompt(index: int) -> Seq<char> {
    if index == 0 {
        "The most Snarky zkVM. Watch out for the lasso."@
    } else if index == 1 {
        "Buckle your seat belt."@
    } else if index == 2 {
        "zkVMs are compressors."@
    } else if index == 3 {
        "Never dupe your network's compute."@
    } else if index == 4 {
        "You look great today."@
    } else if index == 5 {
        "Satiate your cores."@
    } else if index == 6 {
        "The multilinear one."@
    } else if index == 7 {
        "Transforming network architectures since 2025."@
    } else if index == 8 {
        "We heard you like sumcheck."@
    } else if index == 9 {
        "Reed and Solomon were quite the chaps."@
    } else if index == 10 {
        "Techno optimistic Jolt."@
    } else if index == 11 {
        "zk is a misnomer."@
    } else if index == 12 {
        "Twice as fast as Apollo 11."@
    } else if index == 13 {
        "Mason's favorite zkVM."@
    } else if index == 14 {
        "Sumcheck Is All You Need"@
    } else if index == 15 {
        "Lasso-ing RV32 instructions since 2024."@
    } else if index == 16 {
        "Read. Write. Jolt."@
    } else {
        "Jolt is not financial advice. Jolt is a zkVM."@
    }
}

/// The prompts, in their order.
pub fn prompts() -> (all: Vec<String>)
    ensures
        all@.len() == PROMPT_COUNT,
        forall|i: int| 0 <= i < PROMPT_COUNT ==> (#[trigger] all@[i])@ == prompt(i),
{
    let mut all: Vec<String> = Vec::new();
    all.push(String::from_str("The most Snarky zkVM. Watch out for the lasso."));
    all.push(String::from_str("Buckle your seat belt."));
    all.push(String::from_str("zkVMs are compressors."));
    all.push(String::from_str("Never dupe your network's compute."));
    all.push(String::from_str("You look great today."));
    all.push(String::from_str("Satiate your cores."));
    all.push(String::from_str("The multilinear one."));
    all.push(String::from_str("Transforming network architectures since 2025."));
    all.push(String::from_str("We heard you like sumcheck."));
    all.push(String::from_str("Reed and Solomon were quite the chaps."));
    all.push(String::from_str("Techno optimistic Jolt."));
    all.push(String::from_str("zk is a misnomer."));
    all.push(String::from_str("Twice as fast as Apollo 11."));
    all.push(String::from_str("Mason's favorite zkVM."));
    all.push(String::from_str("Sumcheck Is All You Need"));
    all.push(String::from_str("Lasso-ing RV32 instructions since 2024."));
    all.push(String::from_str("Read. Write. Jolt."));
    all.push(String::from_str("Jolt is not financial advice. Jolt is a zkVM."));
    all
}

/// `rand::seq::SliceRandom::choose` with the generator of the thread, `rand::thread_rng`.
/// Which option comes back is a matter of chance; the contract claims what holds of every
/// draw: one of the options comes back, and none only where there is none to choose from.
#[verifier::external_body]
fn draw(options: &Vec<String>) -> (chosen: Option<&String>)
    ensures
        chosen is None <==> options@.len() == 0,
        chosen matches Some(option) ==> exists|i: int|
            0 <= i < options@.len() && #[trigger] options@[i] == *option,
{
    rand::seq::SliceRandom::choose(&options[..], &mut rand::thread_rng())
}

/// Whether `lines` is the greeting around `logo` that ends in the prompt `prompt`.
pub open spec fn is_greeting(lines: Seq<String>, logo: Seq<char>, prompt: Seq<char>) -> bool {
    &&& lines.len() == 5
    &&& lines[0]@ == "\n\n\n\n"@
    &&& lines[1]@ == logo
    &&& lines[2]@ == "\n\n\n\n"@
    &&& lines[3]@ == "\x1B[1mWelcome to Jolt.\x1B[0m"@
    &&& lines[4]@ == "\x1B[3m"@ + prompt + "\x1B[0m"@
}

/// The lines of the greeting around `logo` that ends in `prompt`: the logo between blank
/// space, the welcome in bold and the prompt in italics.
pub fn greeting(logo: &str, prompt: &str) -> (lines: Vec<String>)
    ensures
        is_greeting(lines@, logo@, prompt@),
{
    let mut slanted = String::from_str("\x1B[3m");
    slanted.append(prompt);
    slanted.append("\x1B[0m");
    let mut lines: Vec<String> = Vec::new();
    lines.push(String::from_str("\n\n\n\n"));
    lines.push(String::from_str(logo));
    lines.push(String::from_str("\n\n\n\n"));
    lines.push(String::from_str("\x1B[1mWelcome to Jolt.\x1B[0m"));
    lines.push(slanted);
    lines
}

/// The lines of the greeting around `logo`, with a prompt drawn at random: whichever it
/// is, it is one of the prompts.
pub fn display_greeting(logo: &str) -> (lines: Vec<String>)
    ensures
        exists|i: int| 0 <= i < PROMPT_COUNT && is_greeting(lines@, logo@, #[trigger] prompt(i)),
{
    let all = prompts();
    match draw(&all) {
        Some(chosen) => {
            let lines = greeting(logo, chosen.as_str());
            proof {
                let i = choose|i: int| 0 <= i < all@.len() && #[trigger] all@[i] == *chosen;
                assert(is_greeting(lines@, logo@, prompt(i)));
            }
            lines
        },
        None => {
            // The prompts are not empty, so a draw always yields one.
            let lines = greeting(logo, all[0].as_str());
            assert(is_greeting(lines@, logo@, prompt(0)));
            lines
        },
    }
}

/// The fact `value` as it is shown: itself where the machine tells it, and `UNKNOWN`
/// where it does not.
pub fn shown(value: Option<String>) -> (text: String)
    ensures
        value matches Some(told) ==> text@ == told@,
        value is None ==> text@ == UNKNOWN@,
{
    match value {
        Some(told) => told,
        None => String::from_str(UNKNOWN),
    }
}

/// What is shown for a fact: the text of `value`, or that of `UNKNOWN`.
pub open spec fn shown_text(value: Option<String>) -> Seq<char> {
    match value {
        Some(told) => told@,
        None => UNKNOWN@,
    }
}

/// Whether `lines` are the facts about the machine, each behind its caption.
pub open spec fn is_sysinfo(
    lines: Seq<String>,
    name: Option<String>,
    version: Option<String>,
    host: Option<String>,
    cpus: Seq<char>,
    ram: Seq<char>,
) -> bool {
    &&& lines.len() == 5
    &&& lines[0]@ == "OS:             "@ + shown_text(name)
    &&& lines[1]@ == "version:        "@ + shown_text(version)
    &&& lines[2]@ == "Host:           "@ + shown_text(host)
    &&& lines[3]@ == "CPUs:           "@ + cpus
    &&& lines[4]@ == "RAM:            "@ + ram + " GB"@
}

/// The caption `caption` followed by `value`.
fn captioned(caption: &str, value: &str) -> (line: String)
    ensures
        line@ == caption@ + value@,
{
    let mut line = String::from_str(caption);
    line.append(value);
    line
}

/// The facts about the machine as lines: the system's name, its version and the host's
/// name, each `UNKNOWN` where the machine does not tell it, then the number of processors
/// and the memory in gigabytes, both as the caller has written them out.
pub fn display_sysinfo(
    name: Option<String>,
    version: Option<String>,
    host: Option<String>,
    cpus: &str,
    ram: &str,
) -> (lines: Vec<String>)
    ensures
        is_sysinfo(lines@, name, version, host, cpus@, ram@),
{
    let name_text = shown(name);
    let version_text = shown(version);
    let host_text = shown(host);
    let mut memory = captioned("RAM:            ", ram);
    memory.append(" GB");
    let mut lines: Vec<String> = Vec::new();
    lines.push(captioned("OS:             ", name_text.as_str()));
    lines.push(captioned("version:        ", version_text.as_str()));
    lines.push(captioned("Host:           ", host_text.as_str()));
    lines.push(captioned("CPUs:           ", cpus));
    lines.push(memory);
    lines
}

/// A rule of `width` dashes.
pub fn rule(width: usize) -> (line: String)
    ensures
        line@ == Seq::new(width as nat, |i: int| '-'),
{
    proof {
        reveal_strlit("-");
    }
    let mut line = String::new();
    let mut i: usize = 0;
    while i < width
        invariant
            i <= width,
            line@ == Seq::new(i as nat, |k: int| '-'),
            "-"@ == seq!['-'],
        decreases width - i,
    {
        line.append("-");
        i = i + 1;
        assert(line@ =~= Seq::new(i as nat, |k: int| '-'));
    }
    line
}

/// The welcome: the greeting, a rule of 80 dashes, and the facts about the machine.
pub fn display_welcome(greeting: Vec<String>, sysinfo: Vec<String>) -> (lines: Vec<String>)
    ensures
        lines@.len() == greeting@.len() + 1 + sysinfo@.len(),
        forall|i: int| 0 <= i < greeting@.len() ==> (#[trigger] lines@[i])@ == greeting@[i]@,
        lines@[greeting@.len() as int]@ == Seq::new(RULE_WIDTH as nat, |i: int| '-'),
        forall|i: int|
            0 <= i < sysinfo@.len() ==> (#[trigger] lines@[greeting@.len() + 1 + i])@
                == sysinfo@[i]@,
{
    let mut lines = greeting;
    let ghost head = lines@;
    lines.push(rule(RULE_WIDTH));
    let mut i: usize = 0;
    while i < sysinfo.len()
        invariant
            i <= sysinfo@.len(),
            lines@.len() == head.len() + 1 + i,
            forall|k: int| 0 <= k < head.len() ==> (#[trigger] lines@[k])@ == head[k]@,
            lines@[head.len() as int]@ == Seq::new(RULE_WIDTH as nat, |k: int| '-'),
            forall|k: int| 0 <= k < i ==> (#[trigger] lines@[head.len() + 1 + k])@ == sysinfo@[k]@,
        decreases sysinfo@.len() - i,
    {
        lines.push(sysinfo[i].clone());
        i = i + 1;
    }
    lines
}

} // verus!

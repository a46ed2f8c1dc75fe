//! The command lines of the probes, and how a speed measurement is followed to its end.
use vstd::prelude::*;
use vstd::utf8::encode_utf8;

use crate::text::{
    decimal, join3, parse_number, parse_unsigned, push_decimal, quoted, quoted_of, same_text,
};

verus! {

pub const BAD_PORT: &'static str = "bad port ";

pub const TOO_MANY: &'static str = "too many arguments";

pub const BAD_APP: &'static str = "bad app id ";

pub const GS_USAGE: &'static str = "usage: gsprobe [info|pair|applist|art|unpair|quit] <host> [args] — see the module docs";

pub const PF_USAGE: &'static str = "usage: pfprobe <host> <port> <cert.pem> <key.pem> <pin-hex-64> [target_kbps] [duration_ms]";

pub const PIN_LENGTH: &'static str = "pin must be 64 hex chars";

pub const BAD_HEX: &'static str = "bad hex at byte ";

/// The rate of the session that a measurement runs in. It is not 0, which would start another
/// measurement.
pub const PROBE_SESSION_BITRATE_KBPS: u32 = 20_000;

/// How long after the burst the host's report is waited for, in milliseconds.
pub const PROBE_REPORT_GRACE_MS: u64 = 12_000;

/// How often a first frame is waited for before the burst.
pub const WARMUP_TRIES: u32 = 300;

/// A port, where the rest of a command line names one.
pub open spec fn port_text(rest: Seq<Seq<char>>) -> Result<Option<u16>, Seq<char>> {
    if rest.len() == 0 {
        Ok(None)
    } else if rest.len() == 1 {
        match parse_unsigned(rest[0], u16::MAX as nat) {
            Some(p) => Ok(Some(p as u16)),
            None => Err(BAD_PORT@ + quoted_of(rest[0])),
        }
    } else {
        Err(TOO_MANY@)
    }
}

/// The texts of a run of arguments.
pub open spec fn texts(args: Seq<String>) -> Seq<Seq<char>> {
    args.map_values(|s: String| s@)
}

/// The port that the arguments from `from` on name, if they do.
pub fn port(args: &Vec<String>, from: usize) -> (r: Result<Option<u16>, String>)
    requires
        from <= args@.len(),
    ensures
        match r {
            Ok(p) => port_text(texts(args@).skip(from as int)) == Ok::<Option<u16>, Seq<char>>(p),
            Err(e) => port_text(texts(args@).skip(from as int)) == Err::<Option<u16>, Seq<char>>(
                e@,
            ),
        },
{
    let ghost rest = texts(args@).skip(from as int);
    let n: usize = args.len() - from;
    if n == 0 {
        return Ok(None);
    }
    if n > 1 {
        return Err(TOO_MANY.to_owned());
    }
    let word = args[from].as_str();
    assert(rest[0] == word@);
    match parse_number(word, u16::MAX as u64) {
        Some(p) => Ok(Some(p as u16)),
        None => {
            let mut why = BAD_PORT.to_owned();
            let shown = quoted(word);
            why.append(shown.as_str());
            Err(why)
        },
    }
}

/// What a probe of a GameStream host is to do.
#[derive(Debug)]
pub enum GsCommand {
    /// Show that the program runs at all.
    LinkCheck,
    Info { host: String, port: Option<u16> },
    Pair { host: String, port: Option<u16> },
    AppList { host: String, port: Option<u16> },
    Art { host: String, app_id: u32, port: Option<u16> },
    Unpair { host: String, port: Option<u16> },
    Quit { host: String, port: Option<u16> },
}

/// A `GsCommand` as values.
pub enum GsCommandView {
    LinkCheck,
    Info { host: Seq<char>, port: Option<u16> },
    Pair { host: Seq<char>, port: Option<u16> },
    AppList { host: Seq<char>, port: Option<u16> },
    Art { host: Seq<char>, app_id: u32, port: Option<u16> },
    Unpair { host: Seq<char>, port: Option<u16> },
    Quit { host: Seq<char>, port: Option<u16> },
}

impl View for GsCommand {
    type V = GsCommandView;

    open spec fn view(&self) -> GsCommandView {
        match *self {
            GsCommand::LinkCheck => GsCommandView::LinkCheck,
            GsCommand::Info { host, port } => GsCommandView::Info { host: host@, port },
            GsCommand::Pair { host, port } => GsCommandView::Pair { host: host@, port },
            GsCommand::AppList { host, port } => GsCommandView::AppList { host: host@, port },
            GsCommand::Art { host, app_id, port } => GsCommandView::Art {
                host: host@,
                app_id,
                port,
            },
            GsCommand::Unpair { host, port } => GsCommandView::Unpair { host: host@, port },
            GsCommand::Quit { host, port } => GsCommandView::Quit { host: host@, port },
        }
    }
}

/// The command for a word that takes a host and a port.
pub open spec fn hosted(word: Seq<char>, host: Seq<char>, port: Option<u16>) -> Option<
    GsCommandView,
> {
    if word == "info"@ {
        Some(GsCommandView::Info { host, port })
    } else if word == "pair"@ {
        Some(GsCommandView::Pair { host, port })
    } else if word == "applist"@ {
        Some(GsCommandView::AppList { host, port })
    } else if word == "unpair"@ {
        Some(GsCommandView::Unpair { host, port })
    } else if word == "quit"@ {
        Some(GsCommandView::Quit { host, port })
    } else {
        None
    }
}

/// What the arguments of a probe of a GameStream host come to.
pub open spec fn gs_command(args: Seq<Seq<char>>) -> Result<GsCommandView, Seq<char>> {
    if args.len() == 0 {
        Ok(GsCommandView::LinkCheck)
    } else if args[0] == "art"@ && args.len() >= 3 {
        match port_text(args.skip(3)) {
            Err(why) => Err(why),
            Ok(port) => match parse_unsigned(args[2], u32::MAX as nat) {
                Some(id) => Ok(GsCommandView::Art { host: args[1], app_id: id as u32, port }),
                None => Err(BAD_APP@ + quoted_of(args[2])),
            },
        }
    } else if args.len() >= 2 && hosted(args[0], args[1], None) is Some {
        match port_text(args.skip(2)) {
            Err(why) => Err(why),
            Ok(port) => Ok(hosted(args[0], args[1], port)->0),
        }
    } else {
        Err(GS_USAGE@)
    }
}

fn hosted_command(word: &str, host: &str, port: Option<u16>) -> (r: Option<GsCommand>)
    ensures
        match r {
            Some(c) => hosted(word@, host@, port) == Some(c@),
            None => hosted(word@, host@, port) is None,
        },
{
    if same_text(word, "info") {
        Some(GsCommand::Info { host: host.to_owned(), port })
    } else if same_text(word, "pair") {
        Some(GsCommand::Pair { host: host.to_owned(), port })
    } else if same_text(word, "applist") {
        Some(GsCommand::AppList { host: host.to_owned(), port })
    } else if same_text(word, "unpair") {
        Some(GsCommand::Unpair { host: host.to_owned(), port })
    } else if same_text(word, "quit") {
        Some(GsCommand::Quit { host: host.to_owned(), port })
    } else {
        None
    }
}

/// Reads the arguments of a probe of a GameStream host.
pub fn parse_gs_command(args: &Vec<String>) -> (r: Result<GsCommand, String>)
    ensures
        match r {
            Ok(c) => gs_command(texts(args@)) == Ok::<GsCommandView, Seq<char>>(c@),
            Err(e) => gs_command(texts(args@)) == Err::<GsCommandView, Seq<char>>(e@),
        },
{
    let ghost all = texts(args@);
    if args.len() == 0 {
        return Ok(GsCommand::LinkCheck);
    }
    assert(all[0] == args@[0]@);
    if args.len() >= 3 && same_text(args[0].as_str(), "art") {
        assert(all[1] == args@[1]@);
        assert(all[2] == args@[2]@);
        let named = match port(args, 3) {
            Err(e) => {
                return Err(e);
            },
            Ok(named) => named,
        };
        return match parse_number(args[2].as_str(), u32::MAX as u64) {
            Some(id) => Ok(
                GsCommand::Art { host: args[1].clone(), app_id: id as u32, port: named },
            ),
            None => {
                let mut why = BAD_APP.to_owned();
                let shown = quoted(args[2].as_str());
                why.append(shown.as_str());
                Err(why)
            },
        };
    }
    if args.len() >= 2 && hosted_command(args[0].as_str(), args[1].as_str(), None).is_some() {
        assert(all[1] == args@[1]@);
        let named = match port(args, 2) {
            Err(e) => {
                return Err(e);
            },
            Ok(named) => named,
        };
        return match hosted_command(args[0].as_str(), args[1].as_str(), named) {
            Some(c) => Ok(c),
            None => Err(GS_USAGE.to_owned()),
        };
    }
    proof {
        if args.len() >= 2 {
            assert(all[1] == args@[1]@);
        }
    }
    Err(GS_USAGE.to_owned())
}

/// The value of a hexadecimal digit in ASCII, in either case.
pub open spec fn hex_digit(b: u8) -> Option<int> {
    if 0x30 <= b <= 0x39 {
        Some(b - 0x30)
    } else if 0x41 <= b <= 0x46 {
        Some(b - 0x41 + 10)
    } else if 0x61 <= b <= 0x66 {
        Some(b - 0x61 + 10)
    } else {
        None
    }
}

/// The byte that two digits spell.
pub open spec fn hex_byte(a: u8, b: u8) -> Option<int> {
    match (hex_digit(a), hex_digit(b)) {
        (Some(high), Some(low)) => Some(high * 16 + low),
        _ => None,
    }
}

fn digit_value(b: u8) -> (r: Option<u8>)
    ensures
        match r {
            Some(v) => hex_digit(b) == Some(v as int) && v < 16,
            None => hex_digit(b) is None,
        },
{
    if 0x30 <= b && b <= 0x39 {
        Some(b - 0x30)
    } else if 0x41 <= b && b <= 0x46 {
        Some(b - 0x41 + 10)
    } else if 0x61 <= b && b <= 0x66 {
        Some(b - 0x61 + 10)
    } else {
        None
    }
}

/// The byte that the pair of characters `i` spells.
pub open spec fn pair_at(hex: Seq<u8>, i: int) -> Option<int> {
    hex_byte(hex[2 * i], hex[2 * i + 1])
}

/// Whether the first `n` pairs of `hex` all spell bytes.
pub open spec fn pairs_good(hex: Seq<u8>, n: int) -> bool {
    forall|i: int| 0 <= i < n ==> #[trigger] pair_at(hex, i) is Some
}

/// Whether `b` spells a pin: 64 hexadecimal digits.
pub open spec fn pin_good(b: Seq<u8>) -> bool {
    b.len() == 64 && pairs_good(b, 32)
}

/// Whether `pin` is the one that `b` spells.
pub open spec fn pin_spelled(b: Seq<u8>, pin: Seq<u8>) -> bool {
    pin.len() == 32 && forall|i: int| 0 <= i < 32 ==> pair_at(b, i) == Some(#[trigger] pin[i] as int)
}

/// Whether `why` tells what is wrong with a pin: its length, or its first pair that is no byte.
pub open spec fn pin_faulted(b: Seq<u8>, why: Seq<char>) -> bool {
    if b.len() != 64 {
        why == PIN_LENGTH@
    } else {
        exists|i: int|
            0 <= i < 32 && pairs_good(b, i) && #[trigger] pair_at(b, i) is None && why == BAD_HEX@
                + decimal(i as nat)
    }
}

/// The pin in 64 hexadecimal digits, or what is wrong with them.
pub fn parse_pin(hex: &str) -> (r: Result<Vec<u8>, String>)
    ensures
        match r {
            Ok(pin) => pin_good(encode_utf8(hex@)) && pin_spelled(encode_utf8(hex@), pin@),
            Err(why) => !pin_good(encode_utf8(hex@)) && pin_faulted(encode_utf8(hex@), why@),
        },
{
    let bytes = hex.as_bytes();
    let ghost b = encode_utf8(hex@);
    if bytes.len() != 64 {
        return Err(PIN_LENGTH.to_owned());
    }
    let mut pin: Vec<u8> = Vec::new();
    let mut i: usize = 0;
    while i < 32
        invariant
            i <= 32,
            bytes@ == b,
            b == encode_utf8(hex@),
            b.len() == 64,
            pin@.len() == i,
            pairs_good(b, i as int),
            forall|k: int|
                0 <= k < i ==> pair_at(b, k) == Some(#[trigger] pin@[k] as int),
        decreases 32 - i,
    {
        let high = digit_value(bytes[2 * i]);
        let low = digit_value(bytes[2 * i + 1]);
        match (high, low) {
            (Some(h), Some(l)) => {
                pin.push(h * 16 + l);
            },
            _ => {
                let mut why = BAD_HEX.to_owned();
                push_decimal(&mut why, i as u64);
                assert(pair_at(b, i as int) is None);
                return Err(why);
            },
        }
        i += 1;
    }
    Ok(pin)
}

/// Where a speed measurement goes, and the files of the identity that it presents.
#[derive(Debug)]
pub struct ProbeArgs {
    pub host: String,
    pub port: u16,
    pub cert_file: String,
    pub key_file: String,
}

/// Whom a speed measurement trusts, and what it is to be of.
#[derive(Debug)]
pub struct ProbePlan {
    pub pin: Vec<u8>,
    pub target_kbps: u32,
    pub duration_ms: u32,
}

/// The number in the argument `i`, or `default` where there is none.
pub open spec fn number_arg(args: Seq<Seq<char>>, i: int, default: u32) -> Option<u32> {
    if i >= args.len() {
        Some(default)
    } else {
        match parse_unsigned(args[i], u32::MAX as nat) {
            Some(n) => Some(n as u32),
            None => None,
        }
    }
}

fn number_or(args: &Vec<String>, i: usize, default: u32) -> (r: Option<u32>)
    ensures
        r == number_arg(texts(args@), i as int, default),
{
    if i >= args.len() {
        return Some(default);
    }
    assert(texts(args@)[i as int] == args@[i as int]@);
    match parse_number(args[i].as_str(), u32::MAX as u64) {
        Some(n) => Some(n as u32),
        None => None,
    }
}

/// What is wrong with the first arguments of a speed measurement, the program's name before them.
pub open spec fn probe_fault(args: Seq<Seq<char>>) -> Option<Seq<char>> {
    if args.len() < 6 {
        Some(PF_USAGE@)
    } else if parse_unsigned(args[2], u16::MAX as nat) is None {
        Some("port"@)
    } else {
        None
    }
}

/// Reads where a speed measurement goes, and the names of the two files to read before the other
/// arguments are looked at. The program's name comes first.
pub fn parse_probe_args(args: &Vec<String>) -> (r: Result<ProbeArgs, String>)
    ensures
        ({
            let a = texts(args@);
            match r {
                Err(why) => probe_fault(a) == Some(why@),
                Ok(p) => {
                    &&& probe_fault(a) is None
                    &&& p.host@ == a[1]
                    &&& parse_unsigned(a[2], u16::MAX as nat) == Some(p.port as nat)
                    &&& p.cert_file@ == a[3]
                    &&& p.key_file@ == a[4]
                },
            }
        }),
{
    let ghost a = texts(args@);
    if args.len() < 6 {
        return Err(PF_USAGE.to_owned());
    }
    assert(forall|i: int| 0 <= i < a.len() ==> #[trigger] a[i] == args@[i]@);
    let port: u16 = match parse_number(args[2].as_str(), u16::MAX as u64) {
        Some(p) => p as u16,
        None => {
            return Err("port".to_owned());
        },
    };
    Ok(
        ProbeArgs {
            host: args[1].clone(),
            port,
            cert_file: args[3].clone(),
            key_file: args[4].clone(),
        },
    )
}

/// Reads the other arguments of a speed measurement: the pin first, then the two numbers.
pub fn parse_probe_plan(args: &Vec<String>) -> (r: Result<ProbePlan, String>)
    requires
        args.len() >= 6,
    ensures
        ({
            let a = texts(args@);
            let pin = encode_utf8(a[5]);
            match r {
                Err(why) => if !pin_good(pin) {
                    pin_faulted(pin, why@)
                } else if number_arg(a, 6, 320_000) is None {
                    why@ == "target_kbps"@
                } else {
                    number_arg(a, 7, 3_000) is None && why@ == "duration_ms"@
                },
                Ok(p) => {
                    &&& pin_good(pin)
                    &&& pin_spelled(pin, p.pin@)
                    &&& number_arg(a, 6, 320_000) == Some(p.target_kbps)
                    &&& number_arg(a, 7, 3_000) == Some(p.duration_ms)
                },
            }
        }),
{
    let ghost a = texts(args@);
    assert(forall|i: int| 0 <= i < a.len() ==> #[trigger] a[i] == args@[i]@);
    let pin: Vec<u8> = match parse_pin(args[5].as_str()) {
        Ok(pin) => pin,
        Err(why) => {
            return Err(why);
        },
    };
    let target_kbps: u32 = match number_or(args, 6, 320_000) {
        Some(n) => n,
        None => {
            return Err("target_kbps".to_owned());
        },
    };
    let duration_ms: u32 = match number_or(args, 7, 3_000) {
        Some(n) => n,
        None => {
            return Err("duration_ms".to_owned());
        },
    };
    Ok(ProbePlan { pin, target_kbps, duration_ms })
}

/// What to do after a look at a measurement.
#[derive(Clone, Copy, Debug, PartialEq, Eq, Structural)]
pub enum ProbeStep {
    /// The host has reported: give its figures, once the last packets are in.
    Report,
    /// Say how far it is, and look again.
    Progress,
    /// Say how far it is, and give up: the figure is derived from what came.
    GiveUp { kbps: u64 },
}

/// The rate of `bytes` over the burst, in kilobits a second.
pub open spec fn derived_kbps(bytes: u64, duration_ms: u32) -> int {
    (if bytes * 8 > u64::MAX {
        u64::MAX as int
    } else {
        bytes * 8
    }) / duration_ms as int
}

/// Decides after a look at the measurement, at `now` milliseconds after the burst was asked
/// for.
pub fn probe_step(done: bool, now: u64, duration_ms: u32, recv_bytes: u64) -> (r: ProbeStep)
    requires
        duration_ms > 0,
    ensures
        r == (if done {
            ProbeStep::Report
        } else if now > duration_ms + PROBE_REPORT_GRACE_MS {
            ProbeStep::GiveUp { kbps: derived_kbps(recv_bytes, duration_ms) as u64 }
        } else {
            ProbeStep::Progress
        }),
{
    if done {
        return ProbeStep::Report;
    }
    if now > duration_ms as u64 + PROBE_REPORT_GRACE_MS {
        let bits: u64 = if recv_bytes > u64::MAX / 8 {
            u64::MAX
        } else {
            recv_bytes * 8
        };
        return ProbeStep::GiveUp { kbps: bits / duration_ms as u64 };
    }
    ProbeStep::Progress
}

/// The file that a fetched cover is written to.
pub fn art_file(id: u32) -> (r: String)
    ensures
        r@ == "gamestream-art-"@ + decimal(id as nat) + ".png"@,
{
    let mut n = String::new();
    push_decimal(&mut n, id as u64);
    assert(n@ =~= decimal(id as nat));
    join3("gamestream-art-", n.as_str(), ".png")
}

/// A probe's word decides what it does, at the host that follows and the port after that, where
/// one is given.
pub proof fn law_word_decides_the_probe(host: Seq<char>, port: Seq<char>, n: u16)
    requires
        parse_unsigned(port, 65535) == Some(n as nat),
    ensures
        gs_command(seq!["info"@, host]) == Ok::<GsCommandView, Seq<char>>(
            GsCommandView::Info { host, port: None },
        ),
        gs_command(seq!["pair"@, host]) == Ok::<GsCommandView, Seq<char>>(
            GsCommandView::Pair { host, port: None },
        ),
        gs_command(seq!["applist"@, host]) == Ok::<GsCommandView, Seq<char>>(
            GsCommandView::AppList { host, port: None },
        ),
        gs_command(seq!["unpair"@, host]) == Ok::<GsCommandView, Seq<char>>(
            GsCommandView::Unpair { host, port: None },
        ),
        gs_command(seq!["quit"@, host]) == Ok::<GsCommandView, Seq<char>>(
            GsCommandView::Quit { host, port: None },
        ),
        gs_command(seq!["info"@, host, port]) == Ok::<GsCommandView, Seq<char>>(
            GsCommandView::Info { host, port: Some(n) },
        ),
        gs_command(seq!["pair"@, host, port]) == Ok::<GsCommandView, Seq<char>>(
            GsCommandView::Pair { host, port: Some(n) },
        ),
        gs_command(seq!["applist"@, host, port]) == Ok::<GsCommandView, Seq<char>>(
            GsCommandView::AppList { host, port: Some(n) },
        ),
        gs_command(seq!["unpair"@, host, port]) == Ok::<GsCommandView, Seq<char>>(
            GsCommandView::Unpair { host, port: Some(n) },
        ),
        gs_command(seq!["quit"@, host, port]) == Ok::<GsCommandView, Seq<char>>(
            GsCommandView::Quit { host, port: Some(n) },
        ),
{
    lemma_words_differ();
    assert(seq!["info"@, host].skip(2) =~= seq![]);
    assert(seq!["pair"@, host].skip(2) =~= seq![]);
    assert(seq!["applist"@, host].skip(2) =~= seq![]);
    assert(seq!["unpair"@, host].skip(2) =~= seq![]);
    assert(seq!["quit"@, host].skip(2) =~= seq![]);
    assert(seq!["info"@, host, port].skip(2) =~= seq![port]);
    assert(seq!["pair"@, host, port].skip(2) =~= seq![port]);
    assert(seq!["applist"@, host, port].skip(2) =~= seq![port]);
    assert(seq!["unpair"@, host, port].skip(2) =~= seq![port]);
    assert(seq!["quit"@, host, port].skip(2) =~= seq![port]);
}

proof fn lemma_words_differ()
    ensures
        "info"@ != "art"@ && "pair"@ != "art"@ && "applist"@ != "art"@ && "unpair"@ != "art"@
            && "quit"@ != "art"@,
        "info"@ != "pair"@ && "info"@ != "applist"@ && "info"@ != "unpair"@ && "info"@ != "quit"@,
        "pair"@ != "applist"@ && "pair"@ != "unpair"@ && "pair"@ != "quit"@,
        "applist"@ != "unpair"@ && "applist"@ != "quit"@ && "unpair"@ != "quit"@,
{
    reveal_strlit("info");
    reveal_strlit("pair");
    reveal_strlit("applist");
    reveal_strlit("unpair");
    reveal_strlit("quit");
    reveal_strlit("art");
    assert("info"@[0] == 'i' && "pair"@[0] == 'p' && "quit"@[0] == 'q');
    assert("applist"@.len() == 7 && "unpair"@.len() == 6 && "art"@.len() == 3);
}

/// A cover is asked for by the app's number at a host; what is no number is told back.
pub proof fn law_cover_is_asked_for_by_number(host: Seq<char>, app: Seq<char>)
    ensures
        match parse_unsigned(app, 4294967295) {
            Some(id) => gs_command(seq!["art"@, host, app]) == Ok::<GsCommandView, Seq<char>>(
                GsCommandView::Art { host, app_id: id as u32, port: None },
            ),
            None => gs_command(seq!["art"@, host, app]) == Err::<GsCommandView, Seq<char>>(
                "bad app id "@ + quoted_of(app),
            ),
        },
        gs_command(seq![]) == Ok::<GsCommandView, Seq<char>>(GsCommandView::LinkCheck),
{
    assert(seq!["art"@, host, app].skip(3) =~= seq![]);
}

/// A port that is no number is told back, and more than a port is too much.
pub proof fn law_bad_port_is_told(first: Seq<char>, second: Seq<char>)
    ensures
        parse_unsigned(first, 65535) is None ==> port_text(seq![first]) == Err::<
            Option<u16>,
            Seq<char>,
        >("bad port "@ + quoted_of(first)),
        port_text(seq![first, second]) == Err::<Option<u16>, Seq<char>>("too many arguments"@),
        port_text(seq![]) == Ok::<Option<u16>, Seq<char>>(None),
{
}

/// Two hexadecimal digits spell a byte, the first of them its upper half, in either case.
pub proof fn law_digits_spell_a_byte(high: int, low: int)
    requires
        0 <= high < 16,
        0 <= low < 16,
    ensures
        ({
            let small = |d: int|
                (if d < 10 {
                    '0' as int + d
                } else {
                    'a' as int + d - 10
                }) as u8;
            let large = |d: int|
                (if d < 10 {
                    '0' as int + d
                } else {
                    'A' as int + d - 10
                }) as u8;
            &&& hex_byte(small(high), small(low)) == Some(16 * high + low)
            &&& hex_byte(large(high), large(low)) == Some(16 * high + low)
        }),
{
}

/// What is no hexadecimal digit spells nothing.
pub proof fn law_other_characters_spell_nothing(a: u8, b: u8)
    requires
        !('0' as int <= a <= '9' as int) && !('a' as int <= a <= 'f' as int) && !('A' as int <= a
            <= 'F' as int),
    ensures
        hex_byte(a, b) is None,
        hex_byte(b, a) is None,
{
}

/// The rate of what came is its bits over the time that they took: kilobits a second are bits a
/// millisecond.
pub proof fn law_rate_is_bits_over_time(bytes: u64, duration_ms: u32)
    requires
        duration_ms > 0,
        8 * bytes <= u64::MAX,
    ensures
        derived_kbps(bytes, duration_ms) * duration_ms <= 8 * bytes,
        8 * bytes < (derived_kbps(bytes, duration_ms) + 1) * duration_ms,
{
    let n = bytes * 8;
    let d = duration_ms as int;
    vstd::arithmetic::div_mod::lemma_fundamental_div_mod(n, d);
    vstd::arithmetic::div_mod::lemma_mod_bound(n, d);
    assert((n / d) * d == d * (n / d)) by (nonlinear_arith);
    assert((n / d + 1) * d == d * (n / d) + d) by (nonlinear_arith);
}

/// A measurement's numbers are those given, or the defaults where none are.
pub proof fn law_numbers_are_given_or_default(args: Seq<Seq<char>>, i: int, default: u32)
    requires
        0 <= i,
    ensures
        i >= args.len() ==> number_arg(args, i, default) == Some(default),
        i < args.len() ==> match number_arg(args, i, default) {
            Some(n) => parse_unsigned(args[i], 4294967295) == Some(n as nat),
            None => parse_unsigned(args[i], 4294967295) is None,
        },
{
}

} // verus!

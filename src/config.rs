use crate::chunk::DEFAULT_CHUNK_SIZE;
use vstd::prelude::*;
use vstd::string::{StrSliceExecFns, StringExecFns};

verus! {

/// Settings for reaching the remote analysis service.
pub struct GrpcConfig;

/// Settings of the application itself.
pub struct AppConfig;

/// How much the application logs.
#[derive(Clone, Copy, PartialEq, Eq, Structural, Debug)]
pub enum LogLevel {
    Off,
    Error,
    Warn,
    Info,
    Debug,
    Trace,
}

/// What `str::to_lowercase` gives for a text.
pub uninterp spec fn lower_of(s: Seq<char>) -> Seq<char>;

/// Relies on `str::to_lowercase`: the lowercase form depends on the
/// characters alone.
#[verifier::external_body]
fn lowercase(s: &str) -> (r: String)
    ensures
        r@ == lower_of(s@),
{
    s.to_lowercase()
}

pub open spec fn is_digit(c: char) -> bool {
    '0' <= c && c <= '9'
}

/// Value of a run of decimal digits, most significant first.
pub open spec fn digits_value(s: Seq<char>) -> nat
    decreases s.len(),
{
    if s.len() == 0 {
        0
    } else {
        digits_value(s.drop_last()) * 10 + ((s.last() as int) - ('0' as int)) as nat
    }
}

/// The digits of an unsigned decimal number: an optional leading `+`
/// removed.
pub open spec fn unsigned_digits(s: Seq<char>) -> Seq<char> {
    if s.len() > 0 && s[0] == '+' {
        s.drop_first()
    } else {
        s
    }
}

/// An unsigned decimal number that fits in `usize`: an optional `+`, then
/// one or more ASCII digits.
pub open spec fn parsed_usize(s: Seq<char>) -> Option<nat> {
    let d = unsigned_digits(s);
    if d.len() > 0 && (forall|i: int| 0 <= i < d.len() ==> is_digit(#[trigger] d[i]))
        && digits_value(d) <= usize::MAX {
        Some(digits_value(d))
    } else {
        None
    }
}

proof fn lemma_digits_push(s: Seq<char>, c: char)
    requires
        is_digit(c),
    ensures
        digits_value(s.push(c)) == digits_value(s) * 10 + ((c as int) - ('0' as int)),
{
    assert(s.push(c).drop_last() =~= s);
}

proof fn lemma_digits_monotone(s: Seq<char>, i: int)
    requires
        0 <= i <= s.len(),
        forall|j: int| 0 <= j < s.len() ==> is_digit(#[trigger] s[j]),
    ensures
        digits_value(s.subrange(0, i)) <= digits_value(s),
    decreases s.len() - i,
{
    if i < s.len() {
        lemma_digits_monotone(s, i + 1);
        lemma_digits_push(s.subrange(0, i), s[i]);
        assert(s.subrange(0, i).push(s[i]) =~= s.subrange(0, i + 1));
    } else {
        assert(s.subrange(0, i) =~= s);
    }
}

/// Reads an unsigned decimal number that fits in `usize`.
pub fn parse_usize(s: &str) -> (r: Option<usize>)
    ensures
        match parsed_usize(s@) {
            Some(n) => r == Some(n as usize),
            None => r is None,
        },
{
    let len = s.unicode_len();
    let mut i: usize = 0;
    if len > 0 && s.get_char(0) == '+' {
        i = 1;
    }
    let start = i;
    let ghost d = unsigned_digits(s@);
    assert(d =~= s@.subrange(start as int, len as int));
    if i >= len {
        return None;
    }
    let mut acc: usize = 0;
    while i < len
        invariant
            start <= i <= len,
            len == s@.len(),
            d == s@.subrange(start as int, len as int),
            d == unsigned_digits(s@),
            d.len() > 0,
            forall|j: int| 0 <= j < i - start ==> is_digit(#[trigger] d[j]),
            acc == digits_value(d.subrange(0, i - start)),
        decreases len - i,
    {
        let c = s.get_char(i);
        if !('0' <= c && c <= '9') {
            assert(!is_digit(d[i - start]));
            return None;
        }
        let digit = (c as u32 - '0' as u32) as usize;
        proof {
            lemma_digits_push(d.subrange(0, i - start), c);
            assert(d.subrange(0, i - start).push(c) =~= d.subrange(0, i + 1 - start));
        }
        if acc > (usize::MAX - digit) / 10 {
            proof {
                assert(acc * 10 + digit > usize::MAX) by (nonlinear_arith)
                    requires
                        acc > (usize::MAX - digit) / 10,
                        digit <= 9,
                ;
                if forall|j: int| 0 <= j < d.len() ==> is_digit(#[trigger] d[j]) {
                    lemma_digits_monotone(d, i + 1 - start);
                }
            }
            return None;
        }
        assert(acc * 10 + digit <= usize::MAX) by (nonlinear_arith)
            requires
                acc <= (usize::MAX - digit) / 10,
                digit <= 9,
        ;
        acc = acc * 10 + digit;
        i = i + 1;
    }
    assert(d.subrange(0, len - start) =~= d);
    Some(acc)
}

/// The log level named by an already lowercased text, if it names one.
pub open spec fn level_named(name: Seq<char>) -> Option<LogLevel> {
    if name == "trace"@ {
        Some(LogLevel::Trace)
    } else if name == "debug"@ {
        Some(LogLevel::Debug)
    } else if name == "info"@ {
        Some(LogLevel::Info)
    } else if name == "warn"@ {
        Some(LogLevel::Warn)
    } else if name == "error"@ {
        Some(LogLevel::Error)
    } else if name == "off"@ {
        Some(LogLevel::Off)
    } else {
        None
    }
}

/// The level used when none is configured: `Debug` in a debug build,
/// `Info` otherwise.
pub open spec fn default_level(debug_build: bool) -> LogLevel {
    if debug_build {
        LogLevel::Debug
    } else {
        LogLevel::Info
    }
}

pub open spec fn configured_level(lowered: Option<Seq<char>>, debug_build: bool) -> LogLevel {
    match lowered {
        Some(name) => match level_named(name) {
            Some(l) => l,
            None => default_level(debug_build),
        },
        None => default_level(debug_build),
    }
}

/// The log level that a lowercased name selects.
pub fn level_from_lowered(name: &String) -> (r: Option<LogLevel>)
    ensures
        r == level_named(name@),
{
    if *name == String::from_str("trace") {
        Some(LogLevel::Trace)
    } else if *name == String::from_str("debug") {
        Some(LogLevel::Debug)
    } else if *name == String::from_str("info") {
        Some(LogLevel::Info)
    } else if *name == String::from_str("warn") {
        Some(LogLevel::Warn)
    } else if *name == String::from_str("error") {
        Some(LogLevel::Error)
    } else if *name == String::from_str("off") {
        Some(LogLevel::Off)
    } else {
        None
    }
}

/// Whether a configured development flag is on, given the value and its
/// lowercased form: `1`, or `true` in any case.
pub fn dev_flag(value: &String, lowered: &String) -> (r: bool)
    ensures
        r == (value@ == "1"@ || lowered@ == "true"@),
{
    *value == String::from_str("1") || *lowered == String::from_str("true")
}

impl GrpcConfig {
    /// The service endpoint: the configured value if there is one, else the
    /// local default.
    pub fn server_url(configured: Option<String>) -> (r: String)
        ensures
            match configured {
                Some(v) => r@ == v@,
                None => r@ == "http://127.0.0.1:50051"@,
            },
    {
        match configured {
            Some(v) => v,
            None => String::from_str("http://127.0.0.1:50051"),
        }
    }

    /// The upload chunk size in bytes: the configured value if it is a
    /// positive decimal number that fits, else 512 KiB.
    pub fn video_chunk_size(configured: Option<String>) -> (r: usize)
        ensures
            r > 0,
            match configured {
                Some(v) => match parsed_usize(v@) {
                    Some(n) => r == if n > 0 {
                        n
                    } else {
                        DEFAULT_CHUNK_SIZE as nat
                    },
                    None => r == DEFAULT_CHUNK_SIZE,
                },
                None => r == DEFAULT_CHUNK_SIZE,
            },
    {
        match configured {
            Some(v) => match parse_usize(v.as_str()) {
                Some(n) => if n > 0 {
                    n
                } else {
                    DEFAULT_CHUNK_SIZE
                },
                None => DEFAULT_CHUNK_SIZE,
            },
            None => DEFAULT_CHUNK_SIZE,
        }
    }
}

impl AppConfig {
    /// The log level: the one the configured value names, in any case, or
    /// the build's default when none is configured or the name is unknown.
    pub fn log_level(configured: Option<String>, debug_build: bool) -> (r: LogLevel)
        ensures
            r == configured_level(
                match configured {
                    Some(v) => Some(lower_of(v@)),
                    None => None,
                },
                debug_build,
            ),
    {
        match configured {
            Some(v) => {
                let lowered = lowercase(v.as_str());
                match level_from_lowered(&lowered) {
                    Some(l) => l,
                    None => if debug_build {
                        LogLevel::Debug
                    } else {
                        LogLevel::Info
                    },
                }
            },
            None => if debug_build {
                LogLevel::Debug
            } else {
                LogLevel::Info
            },
        }
    }

    /// Whether the application runs in development mode: as configured
    /// (`1` or `true` in any case), or a debug build when nothing is
    /// configured.
    pub fn is_dev(configured: Option<String>, debug_build: bool) -> (r: bool)
        ensures
            match configured {
                Some(v) => r == (v@ == "1"@ || lower_of(v@) == "true"@),
                None => r == debug_build,
            },
    {
        match configured {
            Some(v) => {
                let lowered = lowercase(v.as_str());
                dev_flag(&v, &lowered)
            },
            None => debug_build,
        }
    }
}

} // verus!

use vstd::prelude::*;
use vstd::string::StrSliceExecFns;

verus! {

/// Process settings: the listening port, the size of the request-handling
/// pool, whether artifact files are removed after processing, and the port
/// of the peer service that receives results.
#[derive(Clone, Copy, Debug)]
pub struct Config {
    pub port: u16,
    pub workers: usize,
    pub delete_files: bool,
    pub u_port: u16,
}

/// The setting that could not be read; the process must not start.
#[derive(Clone, Copy, Debug, PartialEq, Eq, Structural)]
pub enum ConfigError {
    Port,
    Workers,
    DeleteFiles,
    UPort,
}

pub open spec fn is_digit(c: char) -> bool {
    '0' <= c && c <= '9'
}

pub open spec fn digit_value(c: char) -> int {
    c as int - '0' as int
}

/// The number written by a sequence of decimal digits.
pub open spec fn digits_value(s: Seq<char>) -> int
    decreases s.len(),
{
    if s.len() == 0 {
        0
    } else {
        digits_value(s.drop_last()) * 10 + digit_value(s.last())
    }
}

/// The digits of an unsigned number's text: one leading `+` is allowed.
pub open spec fn unsigned_digits(s: Seq<char>) -> Seq<char> {
    if s.len() > 0 && s[0] == '+' {
        s.drop_first()
    } else {
        s
    }
}

/// The value of an unsigned decimal number's text, when it is one and does
/// not exceed `max`.
pub open spec fn parsed_unsigned(s: Seq<char>, max: int) -> Option<int> {
    let d = unsigned_digits(s);
    if d.len() > 0 && (forall|i: int| 0 <= i < d.len() ==> is_digit(#[trigger] d[i]))
        && digits_value(d) <= max {
        Some(digits_value(d))
    } else {
        None
    }
}

/// The value of a boolean's text: exactly `true` or `false`.
pub open spec fn parsed_bool(s: Seq<char>) -> Option<bool> {
    if s == "true"@ {
        Some(true)
    } else if s == "false"@ {
        Some(false)
    } else {
        None
    }
}

/// A setting's text, or `default` where it is not set.
pub open spec fn setting(v: Option<&str>, default: Seq<char>) -> Seq<char> {
    match v {
        Some(s) => s@,
        None => default,
    }
}

/// The configuration given by the settings' texts; the first setting that
/// cannot be read, in field order, is the error.
pub open spec fn config_of(
    port: Option<&str>,
    workers: Option<&str>,
    delete_files: Option<&str>,
    u_port: Option<&str>,
) -> Result<Config, ConfigError> {
    let p = parsed_unsigned(setting(port, "8080"@), u16::MAX as int);
    let w = parsed_unsigned(setting(workers, "1"@), usize::MAX as int);
    let d = parsed_bool(setting(delete_files, "false"@));
    let u = parsed_unsigned(setting(u_port, "0"@), u16::MAX as int);
    if p is None {
        Err(ConfigError::Port)
    } else if w is None {
        Err(ConfigError::Workers)
    } else if d is None {
        Err(ConfigError::DeleteFiles)
    } else if u is None {
        Err(ConfigError::UPort)
    } else {
        Ok(
            Config {
                port: p.unwrap() as u16,
                workers: w.unwrap() as usize,
                delete_files: d.unwrap(),
                u_port: u.unwrap() as u16,
            },
        )
    }
}

proof fn lemma_digits_value_nonneg(s: Seq<char>)
    requires
        forall|i: int| 0 <= i < s.len() ==> is_digit(#[trigger] s[i]),
    ensures
        digits_value(s) >= 0,
    decreases s.len(),
{
    if s.len() > 0 {
        lemma_digits_value_nonneg(s.drop_last());
        assert(is_digit(s[s.len() - 1]));
    }
}

/// A longer run of digits never writes a smaller number.
proof fn lemma_digits_value_grows(s: Seq<char>, a: int, j: int, k: int)
    requires
        0 <= a <= j <= k <= s.len(),
        forall|i: int| a <= i < k ==> is_digit(#[trigger] s[i]),
    ensures
        digits_value(s.subrange(a, j)) <= digits_value(s.subrange(a, k)),
    decreases k - j,
{
    if j < k {
        lemma_digits_value_grows(s, a, j, k - 1);
        let t = s.subrange(a, k);
        assert(t.drop_last() =~= s.subrange(a, k - 1));
        assert(is_digit(s[k - 1]));
        assert forall|i: int| 0 <= i < t.drop_last().len() implies is_digit(
            #[trigger] t.drop_last()[i],
        ) by {
            assert(t.drop_last()[i] == s[a + i]);
        }
        lemma_digits_value_nonneg(t.drop_last());
        let v = digits_value(t.drop_last());
        assert(v <= v * 10 + digit_value(t.last())) by (nonlinear_arith)
            requires
                v >= 0,
                digit_value(t.last()) >= 0,
        ;
    }
}

/// Reads an unsigned decimal number no greater than `max`.
fn parse_unsigned(s: &str, max: u64) -> (r: Option<u64>)
    requires
        max >= 9,
    ensures
        r matches Some(v) ==> parsed_unsigned(s@, max as int) == Some(v as int),
        r is None ==> parsed_unsigned(s@, max as int) is None,
{
    let n = s.unicode_len();
    let mut start: usize = 0;
    if n > 0 && s.get_char(0) == '+' {
        start = 1;
    }
    let ghost d = unsigned_digits(s@);
    assert(d =~= s@.subrange(start as int, n as int));
    if start >= n {
        return None;
    }
    let mut v: u64 = 0;
    let mut i: usize = start;
    while i < n
        invariant
            n == s@.len(),
            d == s@.subrange(start as int, n as int),
            d == unsigned_digits(s@),
            start <= i <= n,
            v as int == digits_value(s@.subrange(start as int, i as int)),
            v <= max,
            max >= 9,
            forall|j: int| start <= j < i ==> is_digit(#[trigger] s@[j]),
        decreases n - i,
    {
        let c = s.get_char(i);
        if !('0' <= c && c <= '9') {
            assert(d[i - start] == c);
            assert(!is_digit(d[i - start]));
            return None;
        }
        let dv: u64 = (c as u32 - '0' as u32) as u64;
        let ghost pre = s@.subrange(start as int, (i + 1) as int);
        assert(pre.drop_last() =~= s@.subrange(start as int, i as int));
        assert(pre.last() == c);
        assert(digit_value(c) == dv as int);
        assert(digits_value(pre) == v * 10 + dv);
        if v > (max - dv) / 10 {
            proof {
                assert(v * 10 + dv > max) by (nonlinear_arith)
                    requires
                        v > (max - dv) / 10,
                        dv <= 9,
                        max >= 9,
                ;
                if forall|j: int| 0 <= j < d.len() ==> is_digit(#[trigger] d[j]) {
                    assert forall|j: int| start <= j < n implies is_digit(#[trigger] s@[j]) by {
                        assert(d[j - start] == s@[j]);
                    }
                    lemma_digits_value_grows(s@, start as int, (i + 1) as int, n as int);
                    assert(s@.subrange(start as int, n as int) =~= d);
                    assert(digits_value(d) > max);
                }
            }
            return None;
        }
        assert(v * 10 + dv <= max) by (nonlinear_arith)
            requires
                v <= (max - dv) / 10,
                dv <= 9,
                max >= 9,
        ;
        v = v * 10 + dv;
        i = i + 1;
    }
    assert(s@.subrange(start as int, n as int) =~= d);
    assert forall|j: int| 0 <= j < d.len() implies is_digit(#[trigger] d[j]) by {
        assert(d[j] == s@[start + j]);
    }
    Some(v)
}

/// Whether the text of `s` is exactly `lit`.
fn text_is(s: &str, lit: &str) -> (r: bool)
    ensures
        r == (s@ == lit@),
{
    let n = s.unicode_len();
    if n != lit.unicode_len() {
        return false;
    }
    let mut i: usize = 0;
    while i < n
        invariant
            n == s@.len(),
            n == lit@.len(),
            i <= n,
            forall|j: int| 0 <= j < i ==> s@[j] == lit@[j],
        decreases n - i,
    {
        if s.get_char(i) != lit.get_char(i) {
            return false;
        }
        i = i + 1;
    }
    assert(s@ =~= lit@);
    true
}

/// Reads a boolean: exactly `true` or `false`.
fn parse_bool(s: &str) -> (r: Option<bool>)
    ensures
        r == parsed_bool(s@),
{
    if text_is(s, "true") {
        Some(true)
    } else if text_is(s, "false") {
        proof {
            reveal_strlit("true");
            reveal_strlit("false");
        }
        Some(false)
    } else {
        None
    }
}

impl Config {
    /// The configuration given by the settings' texts, each `None` where it
    /// is not set: the listening port (default 8080), the pool size
    /// (default 1), whether to delete artifact files (default `false`), and
    /// the peer's port (default 0).
    pub fn from_vars(
        port: Option<&str>,
        workers: Option<&str>,
        delete_files: Option<&str>,
        u_port: Option<&str>,
    ) -> (r: Result<Config, ConfigError>)
        ensures
            r == config_of(port, workers, delete_files, u_port),
    {
        let p = parse_unsigned(
            match port {
                Some(s) => s,
                None => "8080",
            },
            u16::MAX as u64,
        );
        let w = parse_unsigned(
            match workers {
                Some(s) => s,
                None => "1",
            },
            usize::MAX as u64,
        );
        let d = parse_bool(
            match delete_files {
                Some(s) => s,
                None => "false",
            },
        );
        let u = parse_unsigned(
            match u_port {
                Some(s) => s,
                None => "0",
            },
            u16::MAX as u64,
        );
        match (p, w, d, u) {
            (None, _, _, _) => Err(ConfigError::Port),
            (_, None, _, _) => Err(ConfigError::Workers),
            (_, _, None, _) => Err(ConfigError::DeleteFiles),
            (_, _, _, None) => Err(ConfigError::UPort),
            (Some(p), Some(w), Some(d), Some(u)) => Ok(
                Config { port: p as u16, workers: w as usize, delete_files: d, u_port: u as u16 },
            ),
        }
    }
}

} // verus!

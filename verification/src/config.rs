//! Application configuration: the settings the service starts from, and the
//! parsing of their textual forms — a port number, and a comma-separated
//! list of allowed origins.

use vstd::prelude::*;

use crate::error::AppError;
use crate::posts::trimmed_of;

verus! {

/// The settings the service starts from.
#[derive(Debug)]
pub struct AppConfig {
    pub port: u16,
    pub allowed_origins: Vec<String>,
    pub firebase_project_id: String,
    pub google_credentials_path: String,
}

/// A decimal digit.
pub open spec fn is_digit(c: char) -> bool {
    '0' <= c && c <= '9'
}

/// The numeric value of a digit sequence, most significant first.
pub open spec fn digits_value(s: Seq<char>) -> int
    decreases s.len(),
{
    if s.len() == 0 {
        0
    } else {
        digits_value(s.drop_last()) * 10 + (s.last() as int - '0' as int)
    }
}

/// The digits of a would-be port number: the string, less an optional
/// leading `+`.
pub open spec fn port_body(s: Seq<char>) -> Seq<char> {
    if s.len() > 0 && s[0] == '+' {
        s.drop_first()
    } else {
        s
    }
}

/// What parsing a port number from a string yields: an optional leading
/// `+`, then at least one digit, valued at most 65535.
pub open spec fn port_of(s: Seq<char>) -> Option<u16> {
    if port_body(s).len() > 0 && (forall|i: int|
        0 <= i < port_body(s).len() ==> is_digit(port_body(s)[i])) && digits_value(port_body(s))
        <= 65535 {
        Some(digits_value(port_body(s)) as u16)
    } else {
        None
    }
}

/// Parse a port number: an optional leading `+`, then decimal digits,
/// at most 65535.
pub fn parse_port(s: &str) -> (r: Option<u16>)
    ensures
        r == port_of(s@),
{
    let n = s.unicode_len();
    let start: usize = if n > 0 && s.get_char(0) == '+' {
        1
    } else {
        0
    };
    let ghost body = if s@.len() > 0 && s@[0] == '+' {
        s@.drop_first()
    } else {
        s@
    };
    proof {
        assert(s@.skip(0) =~= s@);
        assert(s@.len() > 0 ==> s@.drop_first() =~= s@.skip(1));
        assert(body =~= s@.skip(start as int));
        assert(port_body(s@) == body);
    }
    if n == start {
        return None;
    }
    let mut acc: u32 = 0;
    let mut over: bool = false;
    for i in start..n
        invariant
            n == s@.len(),
            start <= i <= n,
            body == s@.skip(start as int),
            port_body(s@) == body,
            start == 0 || start == 1,
            (start == 1) == (s@.len() > 0 && s@[0] == '+'),
            forall|j: int| start <= j < i ==> is_digit(s@[j]),
            over == (digits_value(s@.skip(start as int).take(i - start)) > 65535),
            !over ==> acc == digits_value(s@.skip(start as int).take(i - start)),
            acc <= 65535,
    {
        let c = s.get_char(i);
        if !('0' <= c && c <= '9') {
            proof {
                assert(port_body(s@) =~= body);
                assert(body[i - start] == s@[i as int]);
                assert(!is_digit(port_body(s@)[i - start]));
                assert(port_of(s@) is None);
            }
            return None;
        }
        let d: u32 = (c as u32) - 48;
        assert(s@.skip(start as int).take(i - start + 1).drop_last() =~= s@.skip(
            start as int,
        ).take(i - start));
        assert(s@.skip(start as int).take(i - start + 1).last() == s@[i as int]);
        assert(d == (c as int) - ('0' as int));
        if over || acc * 10 + d > 65535 {
            over = true;
        } else {
            acc = acc * 10 + d;
        }
    }
    assert(s@.skip(start as int).take(n - start) =~= body);
    assert(port_body(s@) == body);
    assert(forall|k: int| 0 <= k < body.len() ==> is_digit(port_body(s@)[k]));
    if over {
        None
    } else {
        Some(acc as u16)
    }
}

/// The pieces of a string between its commas, in order; a string with n
/// commas has n + 1 pieces.
pub open spec fn split_commas(s: Seq<char>) -> Seq<Seq<char>>
    decreases s.len(),
{
    if s.len() == 0 {
        seq![Seq::<char>::empty()]
    } else {
        let rest = split_commas(s.drop_last());
        if s.last() == ',' {
            rest.push(Seq::<char>::empty())
        } else {
            rest.update(rest.len() - 1, rest.last().push(s.last()))
        }
    }
}

/// Splitting yields at least one piece.
proof fn lemma_split_commas_nonempty(s: Seq<char>)
    ensures
        split_commas(s).len() >= 1,
    decreases s.len(),
{
    if s.len() > 0 {
        lemma_split_commas_nonempty(s.drop_last());
    }
}

/// Split a comma-separated list and trim each piece.
pub fn split_origins(s: &str) -> (r: Vec<String>)
    ensures
        r.deep_view().len() == split_commas(s@).len(),
        forall|i: int|
            0 <= i < r.deep_view().len() ==> r.deep_view()[i] == trimmed_of(split_commas(s@)[i]),
{
    let n = s.unicode_len();
    let mut out: Vec<String> = Vec::new();
    let mut piece_start: usize = 0;
    let ghost whole = s@;
    proof {
        lemma_split_commas_nonempty(Seq::<char>::empty());
    }
    assert(split_commas(whole.take(0)) =~= seq![Seq::<char>::empty()]);
    assert(whole.subrange(0, 0) =~= Seq::<char>::empty());
    for i in 0..n
        invariant
            n == whole.len(),
            whole == s@,
            piece_start <= i <= n,
            out.deep_view().len() + 1 == split_commas(whole.take(i as int)).len(),
            split_commas(whole.take(i as int)).last() == whole.subrange(
                piece_start as int,
                i as int,
            ),
            forall|k: int|
                0 <= k < out.deep_view().len() ==> out.deep_view()[k] == trimmed_of(
                    split_commas(whole.take(i as int))[k],
                ),
    {
        let ghost before = split_commas(whole.take(i as int));
        assert(whole.take(i + 1).drop_last() =~= whole.take(i as int));
        assert(whole.take(i + 1).last() == whole[i as int]);
        proof {
            lemma_split_commas_nonempty(whole.take(i as int));
        }
        if s.get_char(i) == ',' {
            let piece = s.substring_char(piece_start, i);
            let trimmed: String = crate::posts::trim_str(piece).to_owned();
            let ghost prev_out = out.deep_view();
            out.push(trimmed);
            assert(out.deep_view() =~= prev_out.push(trimmed_of(whole.subrange(
                piece_start as int,
                i as int,
            ))));
            piece_start = i + 1;
            assert(split_commas(whole.take(i + 1)) =~= before.push(Seq::<char>::empty()));
            assert(whole.subrange(i + 1, i + 1) =~= Seq::<char>::empty());
        } else {
            assert(split_commas(whole.take(i + 1)) =~= before.update(
                before.len() - 1,
                before.last().push(whole[i as int]),
            ));
            assert(whole.subrange(piece_start as int, i as int).push(whole[i as int])
                =~= whole.subrange(piece_start as int, i + 1));
        }
    }
    assert(whole.take(n as int) =~= whole);
    let piece = s.substring_char(piece_start, n);
    let trimmed: String = crate::posts::trim_str(piece).to_owned();
    let ghost prev_out = out.deep_view();
    out.push(trimmed);
    assert(out.deep_view() =~= prev_out.push(trimmed_of(whole.subrange(
        piece_start as int,
        n as int,
    ))));
    proof {
        lemma_split_commas_nonempty(whole);
    }
    assert forall|i: int| 0 <= i < out.deep_view().len() implies out.deep_view()[i] == trimmed_of(
        split_commas(whole)[i],
    ) by {
        if i + 1 == out.deep_view().len() {
            assert(split_commas(whole)[i] == split_commas(whole).last());
        }
    }
    out
}

impl AppConfig {
    /// Assemble the configuration from the textual values the environment
    /// supplies. A missing port means the default of 8081; an unparsable
    /// port, or a missing project id or credentials path, is rejected.
    pub fn from_values(
        port: Option<String>,
        allowed_origins: Option<String>,
        firebase_project_id: Option<String>,
        google_credentials_path: Option<String>,
    ) -> (r: Result<AppConfig, AppError>)
        ensures
            (match r {
                Ok(c) => {
                    &&& (match port {
                        Some(p) => port_of(p@) == Some(c.port),
                        None => c.port == 8081,
                    })
                    &&& (match allowed_origins {
                        Some(o) => c.allowed_origins.deep_view().len() == split_commas(o@).len()
                            && (forall|i: int|
                            0 <= i < c.allowed_origins.deep_view().len()
                                ==> c.allowed_origins.deep_view()[i] == trimmed_of(
                                split_commas(o@)[i],
                            )),
                        None => c.allowed_origins.deep_view().len() == split_commas(
                            "http://localhost:3000"@,
                        ).len() && (forall|i: int|
                            0 <= i < c.allowed_origins.deep_view().len()
                                ==> c.allowed_origins.deep_view()[i] == trimmed_of(
                                split_commas("http://localhost:3000"@)[i],
                            )),
                    })
                    &&& firebase_project_id matches Some(p) && c.firebase_project_id@ == p@
                    &&& google_credentials_path matches Some(g) && c.google_credentials_path@
                        == g@
                },
                Err(e) => {
                    &&& e matches AppError::Validation(m)
                    &&& (if port matches Some(p) && port_of(p@) is None {
                        m@ == "PORT must be a valid number"@
                    } else if firebase_project_id is None {
                        m@ == "FIREBASE_PROJECT_ID must be set"@
                    } else {
                        google_credentials_path is None && m@
                            == "GOOGLE_APPLICATION_CREDENTIALS must be set"@
                    })
                },
            }),
    {
        let port_value: u16 = match port {
            Some(p) => match parse_port(p.as_str()) {
                Some(v) => v,
                None => {
                    return Err(
                        AppError::Validation(String::from_str("PORT must be a valid number")),
                    );
                },
            },
            None => 8081,
        };
        let allowed = match allowed_origins {
            Some(o) => split_origins(o.as_str()),
            None => split_origins("http://localhost:3000"),
        };
        let project = match firebase_project_id {
            Some(p) => p,
            None => {
                return Err(
                    AppError::Validation(String::from_str("FIREBASE_PROJECT_ID must be set")),
                );
            },
        };
        let creds = match google_credentials_path {
            Some(g) => g,
            None => {
                return Err(
                    AppError::Validation(
                        String::from_str("GOOGLE_APPLICATION_CREDENTIALS must be set"),
                    ),
                );
            },
        };
        Ok(
            AppConfig {
                port: port_value,
                allowed_origins: allowed,
                firebase_project_id: project,
                google_credentials_path: creds,
            },
        )
    }
}

} // verus!

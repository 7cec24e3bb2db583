//! Percent-encoding of free-text query input under the service's own escaping
//! table. The table is fixed and is not the standard URL-encoding table: URL
//! structure characters such as `/` pass through, and the encoding is applied
//! blindly, so an already-encoded string is encoded again.

use vstd::prelude::*;
use crate::text::push_char;

verus! {

/// The replacement for one character under the service's escaping table: the
/// listed characters become their fixed three-character percent escape, every
/// other character passes through unchanged.
pub open spec fn encode_char(c: char) -> Seq<char> {
    if c == '?' {
        seq!['%', '3', 'F']
    } else if c == '@' {
        seq!['%', '4', '0']
    } else if c == '#' {
        seq!['%', '2', '3']
    } else if c == '%' {
        seq!['%', '2', '5']
    } else if c == '$' {
        seq!['%', '2', '4']
    } else if c == '&' {
        seq!['%', '2', '6']
    } else if c == '+' {
        seq!['%', '2', 'B']
    } else if c == ',' {
        seq!['%', '2', 'C']
    } else if c == ':' {
        seq!['%', '3', 'A']
    } else if c == ';' {
        seq!['%', '3', 'B']
    } else if c == '=' {
        seq!['%', '3', 'D']
    } else if c == ' ' {
        seq!['%', '2', '0']
    } else if c == '"' {
        seq!['%', '2', '2']
    } else if c == '<' {
        seq!['%', '3', 'C']
    } else if c == '>' {
        seq!['%', '3', 'E']
    } else if c == '{' {
        seq!['%', '7', 'B']
    } else if c == '}' {
        seq!['%', '7', 'D']
    } else if c == '|' {
        seq!['%', '7', 'C']
    } else if c == '^' {
        seq!['%', '5', 'E']
    } else if c == '~' {
        seq!['%', '7', 'E']
    } else if c == '[' {
        seq!['%', '5', 'B']
    } else if c == ']' {
        seq!['%', '5', 'D']
    } else if c == '`' {
        seq!['%', '6', '0']
    } else {
        seq![c]
    }
}

/// The encoding of a whole character sequence: each character replaced by its
/// escape, in order.
pub open spec fn encode_seq(s: Seq<char>) -> Seq<char>
    decreases s.len(),
{
    if s.len() == 0 {
        Seq::empty()
    } else {
        encode_seq(s.drop_last()) + encode_char(s.last())
    }
}

/// Percent-encodes `s` under the service's escaping table. Total and pure; the
/// result is exactly the character-by-character encoding of the input.
pub fn encode_input(s: &str) -> (r: String)
    ensures
        r@ == encode_seq(s@),
{
    let n = s.unicode_len();
    let mut out = String::new();
    let mut i: usize = 0;
    assert(out@ =~= encode_seq(s@.subrange(0, 0)));
    while i < n
        invariant
            0 <= i <= n,
            n == s@.len(),
            out@ == encode_seq(s@.subrange(0, i as int)),
        decreases n - i,
    {
        let c = s.get_char(i);
        match c {
            '?' => {
                proof {
                    reveal_strlit("%3F");
                }
                out.append("%3F");
            },
            '@' => {
                proof {
                    reveal_strlit("%40");
                }
                out.append("%40");
            },
            '#' => {
                proof {
                    reveal_strlit("%23");
                }
                out.append("%23");
            },
            '%' => {
                proof {
                    reveal_strlit("%25");
                }
                out.append("%25");
            },
            '$' => {
                proof {
                    reveal_strlit("%24");
                }
                out.append("%24");
            },
            '&' => {
                proof {
                    reveal_strlit("%26");
                }
                out.append("%26");
            },
            '+' => {
                proof {
                    reveal_strlit("%2B");
                }
                out.append("%2B");
            },
            ',' => {
                proof {
                    reveal_strlit("%2C");
                }
                out.append("%2C");
            },
            ':' => {
                proof {
                    reveal_strlit("%3A");
                }
                out.append("%3A");
            },
            ';' => {
                proof {
                    reveal_strlit("%3B");
                }
                out.append("%3B");
            },
            '=' => {
                proof {
                    reveal_strlit("%3D");
                }
                out.append("%3D");
            },
            ' ' => {
                proof {
                    reveal_strlit("%20");
                }
                out.append("%20");
            },
            '"' => {
                proof {
                    reveal_strlit("%22");
                }
                out.append("%22");
            },
            '<' => {
                proof {
                    reveal_strlit("%3C");
                }
                out.append("%3C");
            },
            '>' => {
                proof {
                    reveal_strlit("%3E");
                }
                out.append("%3E");
            },
            '{' => {
                proof {
                    reveal_strlit("%7B");
                }
                out.append("%7B");
            },
            '}' => {
                proof {
                    reveal_strlit("%7D");
                }
                out.append("%7D");
            },
            '|' => {
                proof {
                    reveal_strlit("%7C");
                }
                out.append("%7C");
            },
            '^' => {
                proof {
                    reveal_strlit("%5E");
                }
                out.append("%5E");
            },
            '~' => {
                proof {
                    reveal_strlit("%7E");
                }
                out.append("%7E");
            },
            '[' => {
                proof {
                    reveal_strlit("%5B");
                }
                out.append("%5B");
            },
            ']' => {
                proof {
                    reveal_strlit("%5D");
                }
                out.append("%5D");
            },
            '`' => {
                proof {
                    reveal_strlit("%60");
                }
                out.append("%60");
            },
            _ => {
                push_char(&mut out, c);
            },
        }
        proof {
            let p = s@.subrange(0, i as int);
            let q = s@.subrange(0, i as int + 1);
            assert(q.drop_last() =~= p);
            assert(q.last() == c);
            assert(out@ =~= encode_seq(p) + encode_char(c));
        }
        i += 1;
    }
    assert(s@.subrange(0, i as int) =~= s@);
    out
}

} // verus!

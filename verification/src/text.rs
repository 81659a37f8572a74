//! Verified text utilities: splitting a dot-separated key path, reading a
//! path segment as a non-negative decimal index, and joining a relative path
//! onto a root directory.

use vstd::prelude::*;
use vstd::string::StrSliceExecFns;
use vstd::string::StringExecFns;

verus! {

/// The views of a sequence of owned strings.
pub open spec fn seq_views(v: Seq<String>) -> Seq<Seq<char>> {
    v.map_values(|t: String| t@)
}

/// The segments of `s` split on `.`, as `str::split('.')` yields them: an
/// empty input gives one empty segment, and every dot separates two segments,
/// so `n` dots give `n + 1` segments.
pub open spec fn split_dots(s: Seq<char>) -> Seq<Seq<char>>
    decreases s.len(),
{
    if s.len() == 0 {
        seq![Seq::empty()]
    } else if s.last() == '.' {
        split_dots(s.drop_last()).push(Seq::empty())
    } else {
        let rest = split_dots(s.drop_last());
        rest.update(rest.len() - 1, rest.last().push(s.last()))
    }
}

pub proof fn lemma_split_dots_len(s: Seq<char>)
    ensures
        split_dots(s).len() >= 1,
    decreases s.len(),
{
    if s.len() > 0 {
        lemma_split_dots_len(s.drop_last());
    }
}

/// Split `s` on `.` into owned segments.
pub fn split_dots_exec(s: &str) -> (r: Vec<String>)
    ensures
        seq_views(r@) == split_dots(s@),
{
    let n = s.unicode_len();
    let mut segs: Vec<String> = Vec::new();
    let mut cur = String::new();
    let mut i: usize = 0;
    proof {
        assert(s@.take(0) =~= Seq::<char>::empty());
        assert(seq_views(segs@).push(cur@) =~~= split_dots(s@.take(0)));
    }
    while i < n
        invariant
            i <= n,
            n == s@.len(),
            split_dots(s@.take(i as int)) == seq_views(segs@).push(cur@),
        decreases n - i,
    {
        let ghost prefix = s@.take(i as int);
        let c = s.get_char(i);
        proof {
            assert(s@.take(i + 1).drop_last() =~= prefix);
            assert(s@.take(i + 1).last() == c);
        }
        if c == '.' {
            segs.push(cur);
            cur = String::new();
            proof {
                assert(seq_views(segs@).push(cur@) =~~= split_dots(prefix).push(Seq::empty()));
            }
        } else {
            let piece = s.substring_char(i, i + 1);
            proof {
                assert(piece@ =~= seq![c]);
            }
            cur.append(piece);
            proof {
                let rest = split_dots(prefix);
                lemma_split_dots_len(prefix);
                assert(rest.update(rest.len() - 1, rest.last().push(c)) =~~= seq_views(
                    segs@,
                ).push(cur@));
            }
        }
        i += 1;
    }
    proof {
        assert(s@.take(n as int) =~= s@);
    }
    segs.push(cur);
    proof {
        assert(seq_views(segs@) =~~= split_dots(s@));
    }
    segs
}

/// Whether `c` is an ASCII decimal digit.
pub open spec fn is_ascii_digit(c: char) -> bool {
    '0' <= c <= '9'
}

/// The value of an ASCII decimal digit.
pub open spec fn digit_val(c: char) -> nat {
    (c as nat - '0' as nat) as nat
}

/// Whether every character of `s` is an ASCII decimal digit.
pub open spec fn all_digits(s: Seq<char>) -> bool {
    forall|i: int| 0 <= i < s.len() ==> is_ascii_digit(#[trigger] s[i])
}

/// The value of `s` read as a decimal numeral, most significant digit first.
pub open spec fn dec_value(s: Seq<char>) -> nat
    decreases s.len(),
{
    if s.len() == 0 {
        0
    } else {
        dec_value(s.drop_last()) * 10 + digit_val(s.last())
    }
}

/// The digits of a decimal numeral: a single leading `+` sign is accepted and
/// skipped, as `usize::from_str` accepts it.
pub open spec fn numeral_digits(s: Seq<char>) -> Seq<char> {
    if s.len() > 0 && s[0] == '+' {
        s.skip(1)
    } else {
        s
    }
}

/// The value of a path segment read as a sequence index: at least one digit
/// after the optional sign, digits only, and a value that fits in `usize`;
/// anything else is no index.
pub open spec fn segment_index(s: Seq<char>) -> Option<nat> {
    let d = numeral_digits(s);
    if d.len() > 0 && all_digits(d) && dec_value(d) <= usize::MAX as nat {
        Some(dec_value(d))
    } else {
        None
    }
}

/// A prefix of a numeral is worth no more than the numeral.
proof fn lemma_dec_value_prefix_le(s: Seq<char>, i: int)
    requires
        0 <= i <= s.len(),
    ensures
        dec_value(s.take(i)) <= dec_value(s),
    decreases s.len(),
{
    if i == s.len() {
        assert(s.take(i) =~= s);
    } else {
        lemma_dec_value_prefix_le(s.drop_last(), i);
        assert(s.drop_last().take(i) =~= s.take(i));
        assert(dec_value(s.drop_last()) * 10 >= dec_value(s.drop_last()));
    }
}

/// Read a path segment as a non-negative decimal sequence index, exactly as
/// `segment_index` describes.
pub fn parse_index(s: &str) -> (r: Option<usize>)
    ensures
        match r {
            Some(v) => segment_index(s@) == Some(v as nat),
            None => segment_index(s@) is None,
        },
{
    let n = s.unicode_len();
    let start: usize = if n > 0 && s.get_char(0) == '+' {
        1
    } else {
        0
    };
    let ghost d = numeral_digits(s@);
    proof {
        assert(d =~= s@.skip(start as int));
    }
    if start == n {
        return None;
    }
    let mut acc: usize = 0;
    let mut i: usize = start;
    while i < n
        invariant
            start <= i <= n,
            n == s@.len(),
            start < n,
            d == numeral_digits(s@),
            d == s@.skip(start as int),
            all_digits(d.take(i - start)),
            acc == dec_value(d.take(i - start)),
        decreases n - i,
    {
        let c = s.get_char(i);
        proof {
            assert(d[i - start] == c);
        }
        if c < '0' || c > '9' {
            proof {
                assert(!is_ascii_digit(d[i - start]));
                assert(!all_digits(d));
            }
            return None;
        }
        let digit: usize = (c as u32 as usize) - 48;
        proof {
            assert(digit == digit_val(c));
            assert(digit <= 9);
        }
        if acc > (usize::MAX - digit) / 10 {
            proof {
                assert(acc * 10 + digit > usize::MAX) by (nonlinear_arith)
                    requires
                        acc > (usize::MAX - digit) / 10,
                        digit <= 9,
                {}
                assert(d.take(i - start + 1).drop_last() =~= d.take(i - start));
                assert(dec_value(d.take(i - start + 1)) > usize::MAX as nat);
                lemma_dec_value_prefix_le(d, i - start + 1);
            }
            return None;
        }
        proof {
            assert(acc * 10 + digit <= usize::MAX) by (nonlinear_arith)
                requires
                    acc <= (usize::MAX - digit) / 10,
                    digit <= 9,
            {}
            assert(d.take(i - start + 1).drop_last() =~= d.take(i - start));
            assert(all_digits(d.take(i - start + 1)));
        }
        acc = acc * 10 + digit;
        i += 1;
    }
    proof {
        assert(d.take(n - start) =~= d);
    }
    Some(acc)
}

/// `rel` joined onto the directory `root`: an absolute `rel` stands alone, an
/// empty `root` adds nothing, and otherwise exactly one `/` separates the two.
pub open spec fn join_path(root: Seq<char>, rel: Seq<char>) -> Seq<char> {
    if rel.len() > 0 && rel[0] == '/' {
        rel
    } else if root.len() == 0 {
        rel
    } else if root.last() == '/' {
        root + rel
    } else {
        root + seq!['/'] + rel
    }
}

/// Join `rel` onto the directory `root`, exactly as `join_path` describes.
pub fn join_path_exec(root: &str, rel: &str) -> (r: String)
    ensures
        r@ == join_path(root@, rel@),
{
    let rel_len = rel.unicode_len();
    if rel_len > 0 && rel.get_char(0) == '/' {
        return rel.to_owned();
    }
    let root_len = root.unicode_len();
    if root_len == 0 {
        return rel.to_owned();
    }
    let mut r = root.to_owned();
    if root.get_char(root_len - 1) != '/' {
        r.append("/");
        proof {
            reveal_strlit("/");
            assert(r@ =~= root@ + seq!['/']);
        }
    }
    r.append(rel);
    proof {
        assert(r@ =~= join_path(root@, rel@));
    }
    r
}

} // verus!

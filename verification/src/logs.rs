//! The redaction point of the log pipeline.
//!
//! While a launched game runs, its output is consumed line by line; each
//! line may carry sensitive substrings (a username, a session id, an
//! access token) that must be replaced before the line is displayed or
//! forwarded. The caller supplies the censor list and the mask to put in
//! place of each occurrence; reading the process's streams is the
//! unverified shell's business.

use vstd::prelude::*;
use vstd::string::*;
use crate::text::spec_starts_with;

verus! {

/// `s` with every occurrence of `pat` replaced by `rep`, scanning left to
/// right without overlap (after a replacement the scan resumes past the
/// matched part). An empty pattern occurs nowhere, so it changes nothing.
pub open spec fn spec_replace_all(s: Seq<char>, pat: Seq<char>, rep: Seq<char>) -> Seq<char>
    decreases s.len(),
{
    if pat.len() == 0 || s.len() < pat.len() {
        s
    } else if spec_starts_with(s, pat) {
        rep + spec_replace_all(s.skip(pat.len() as int), pat, rep)
    } else {
        seq![s[0]] + spec_replace_all(s.skip(1), pat, rep)
    }
}

/// `line` with every occurrence of every censor replaced by `mask`, the
/// censors applied in order.
pub open spec fn spec_redact(line: Seq<char>, censors: Seq<Seq<char>>, mask: Seq<char>) -> Seq<char>
    decreases censors.len(),
{
    if censors.len() == 0 {
        line
    } else {
        spec_redact(spec_replace_all(line, censors[0], mask), censors.skip(1), mask)
    }
}

/// Does `pat` occur in `s` at position `at`?
fn matches_at(s: &str, s_len: usize, pat: &str, pat_len: usize, at: usize) -> (r: bool)
    requires
        s_len == s@.len(),
        pat_len == pat@.len(),
        at <= s_len,
    ensures
        r == (at + pat@.len() <= s@.len() && spec_starts_with(s@.skip(at as int), pat@)),
{
    if pat_len > s_len - at {
        return false;
    }
    let mut i: usize = 0;
    while i < pat_len
        invariant
            s_len == s@.len(),
            pat_len == pat@.len(),
            at + pat_len <= s_len,
            i <= pat_len,
            forall|j: int| 0 <= j < i ==> s@[at + j] == pat@[j],
        decreases pat_len - i,
    {
        if s.get_char(at + i) != pat.get_char(i) {
            proof {
                assert(s@.skip(at as int)[i as int] == s@[at + i]);
                assert(s@.skip(at as int).subrange(0, pat@.len() as int)[i as int]
                    != pat@[i as int]);
            }
            return false;
        }
        i += 1;
    }
    proof {
        assert(s@.skip(at as int).subrange(0, pat@.len() as int) =~= pat@);
    }
    true
}

/// `s` with every occurrence of `pat` replaced by `rep`, scanning left to
/// right without overlap. An empty pattern occurs nowhere, so the string
/// comes back unchanged.
pub fn replace_all(s: &str, pat: &str, rep: &str) -> (r: String)
    ensures
        r@ == spec_replace_all(s@, pat@, rep@),
{
    let s_len = s.unicode_len();
    let pat_len = pat.unicode_len();
    if pat_len == 0 {
        return s.to_owned();
    }
    let mut acc = String::new();
    let mut i: usize = 0;
    proof {
        assert(s@.skip(0) =~= s@);
        assert(Seq::<char>::empty() + spec_replace_all(s@, pat@, rep@)
            =~= spec_replace_all(s@, pat@, rep@));
    }
    while i < s_len
        invariant
            s_len == s@.len(),
            pat_len == pat@.len(),
            pat_len >= 1,
            i <= s_len,
            acc@ + spec_replace_all(s@.skip(i as int), pat@, rep@)
                == spec_replace_all(s@, pat@, rep@),
        decreases s_len - i,
    {
        let ghost rest = s@.skip(i as int);
        if matches_at(s, s_len, pat, pat_len, i) {
            let ghost pre = acc@;
            acc.append(rep);
            proof {
                assert(rest.skip(pat@.len() as int) =~= s@.skip(i + pat@.len()));
                assert((pre + rep@) + spec_replace_all(s@.skip(i + pat@.len()), pat@, rep@)
                    =~= pre + (rep@ + spec_replace_all(s@.skip(i + pat@.len()), pat@, rep@)));
            }
            i += pat_len;
        } else {
            let c = s.substring_char(i, i + 1);
            let ghost pre = acc@;
            proof {
                assert(c@ =~= seq![rest[0]]);
                assert(rest.skip(1) =~= s@.skip(i + 1));
                if rest.len() < pat@.len() {
                    assert(rest.skip(1).len() < pat@.len());
                    assert(rest =~= seq![rest[0]] + rest.skip(1));
                }
                assert((pre + c@) + spec_replace_all(s@.skip(i + 1), pat@, rep@)
                    =~= pre + (seq![rest[0]] + spec_replace_all(s@.skip(i + 1), pat@, rep@)));
            }
            acc.append(c);
            i += 1;
        }
    }
    proof {
        assert(s@.skip(s@.len() as int) =~= Seq::<char>::empty());
        assert(acc@ + Seq::<char>::empty() =~= acc@);
    }
    acc
}

/// Redact one log line: replace every occurrence of every censor with
/// `mask`, the censors applied in order. An empty censor changes nothing.
pub fn redact_line(line: &str, censors: &Vec<String>, mask: &str) -> (r: String)
    ensures
        r@ == spec_redact(line@, censors@.map_values(|c: String| c@), mask@),
{
    let ghost all = censors@.map_values(|c: String| c@);
    let mut acc = line.to_owned();
    let mut i: usize = 0;
    proof {
        assert(all.skip(0) =~= all);
    }
    while i < censors.len()
        invariant
            i <= censors@.len(),
            all == censors@.map_values(|c: String| c@),
            spec_redact(acc@, all.skip(i as int), mask@) == spec_redact(line@, all, mask@),
        decreases censors@.len() - i,
    {
        let ghost rest = all.skip(i as int);
        proof {
            assert(rest[0] == all[i as int]);
            assert(rest.skip(1) =~= all.skip(i + 1));
        }
        let c = &censors[i];
        acc = replace_all(acc.as_str(), c.as_str(), mask);
        i += 1;
    }
    proof {
        assert(all.skip(all.len() as int) =~= Seq::<Seq<char>>::empty());
    }
    acc
}

} // verus!

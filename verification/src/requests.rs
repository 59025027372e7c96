//! The interactive request flows built on the catalog: the gear order
//! elicitation state machine lives in `gear`, and the helpers every flow
//! shares live here.

pub mod gear;

use vstd::prelude::*;

verus! {

pub open spec fn is_ascii_digit(c: char) -> bool {
    '0' <= c && c <= '9'
}

/// The characters `[i, j)` of `s` form a role mention: `<@&`, one or more
/// digits, and a closing `>`.
pub open spec fn role_mention_at(s: Seq<char>, i: int, j: int) -> bool {
    &&& 0 <= i
    &&& i + 5 <= j
    &&& j <= s.len()
    &&& s[i] == '<'
    &&& s[i + 1] == '@'
    &&& s[i + 2] == '&'
    &&& s[j - 1] == '>'
    &&& forall|k: int| i + 3 <= k < j - 1 ==> is_ascii_digit(#[trigger] s[k])
}

/// The leftmost role mention embedded in a message, if any. Announcement
/// messages carry the crafters' role this way; the flows echo it back.
pub fn find_role_mention(content: &str) -> (r: Option<String>)
    ensures
        match r {
            Some(m) => exists|i: int, j: int|
                #[trigger] role_mention_at(content@, i, j) && m@ == content@.subrange(i, j) && (
                forall|i2: int, j2: int| #[trigger] role_mention_at(content@, i2, j2) ==> i <= i2),
            None => forall|i: int, j: int| !role_mention_at(content@, i, j),
        },
{
    let ghost s = content@;
    let n = content.unicode_len();
    let mut i: usize = 0;
    while i < n
        invariant
            i <= n,
            n == s.len(),
            s == content@,
            forall|i2: int, j2: int| i2 < i ==> !role_mention_at(s, i2, j2),
        decreases n - i,
    {
        if content.get_char(i) == '<' && n - i > 3 && content.get_char(i + 1) == '@'
            && content.get_char(i + 2) == '&' {
            let mut k: usize = i + 3;
            while k < n && content.get_char(k) >= '0' && content.get_char(k) <= '9'
                invariant
                    i + 3 <= k <= n,
                    n == s.len(),
                    s == content@,
                    forall|q: int| i + 3 <= q < k ==> is_ascii_digit(#[trigger] s[q]),
                decreases n - k,
            {
                k = k + 1;
            }
            if k > i + 3 && k < n && content.get_char(k) == '>' {
                let m = content.substring_char(i, k + 1).to_owned();
                proof {
                    assert(role_mention_at(s, i as int, k as int + 1));
                }
                return Some(m);
            }
            proof {
                assert forall|j2: int| !role_mention_at(s, i as int, j2) by {
                    if role_mention_at(s, i as int, j2) {
                        if j2 - 1 < k {
                            assert(is_ascii_digit(s[j2 - 1]));
                            assert(s[j2 - 1] == '>');
                            assert(false);
                        } else if j2 - 1 == k {
                            if k == i + 3 {
                                assert(j2 < i + 5);
                            } else if k >= n {
                                assert(j2 > s.len());
                            } else {
                                assert(s[j2 - 1] == '>');
                            }
                            assert(false);
                        } else {
                            assert(k < j2 - 1);
                            assert(is_ascii_digit(s[k as int]));
                            assert(k < n);
                            assert(false);
                        }
                    }
                }
            }
        } else {
            proof {
                assert forall|j2: int| !role_mention_at(s, i as int, j2) by {
                    if role_mention_at(s, i as int, j2) {
                        assert(s[i as int] == '<' && s[i as int + 1] == '@' && s[i as int + 2]
                            == '&');
                        assert(i + 5 <= j2 <= n);
                        assert(false);
                    }
                }
            }
        }
        i = i + 1;
    }
    None
}

} // verus!

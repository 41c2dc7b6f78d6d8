//! Validity of a service name, as the query encoder demands it.
//!
//! A service name (for instance `_rpc._tcp.local`) is written into the query
//! packet as DNS labels: the runs of characters between the dots, each
//! preceded by its length. The encoder in use accepts only ASCII names whose
//! labels are at most 62 bytes long, and a name must be non-empty; a name
//! that breaks these bounds has no query. [`check_service_name`] decides the
//! condition at run time.

use vstd::prelude::*;

verus! {

/// Holds when one of the 63 characters of `s` starting at `i` is a dot.
pub open spec fn window_has_dot(s: Seq<char>, i: int) -> bool {
    exists|j: int| i <= j < i + 63 && s[j] == '.'
}

/// Holds when no 63 consecutive characters of `s` are all dot-free; this is
/// exactly when every label (maximal dot-free run) of `s` is at most 62
/// characters long.
pub open spec fn labels_within_limit(s: Seq<char>) -> bool {
    forall|i: int| 0 <= i && i + 63 <= s.len() ==> #[trigger] window_has_dot(s, i)
}

/// A valid service name: non-empty, ASCII, and with every DNS label at most
/// 62 characters long.
pub open spec fn valid_service_name(s: Seq<char>) -> bool {
    &&& 0 < s.len()
    &&& vstd::utf8::is_ascii_chars(s)
    &&& labels_within_limit(s)
}

/// Decides whether `s` is a valid service name.
pub fn check_service_name(s: &str) -> (b: bool)
    ensures
        b == valid_service_name(s@),
{
    if !s.is_ascii() {
        return false;
    }
    let bytes = s.as_bytes();
    proof {
        vstd::string::is_ascii_spec_bytes(s);
    }
    let n = bytes.len();
    assert(n == s@.len());
    assert(forall|k: int| 0 <= k < n ==> bytes@[k] == s@[k] as u8);
    if n == 0 {
        return false;
    }
    let mut i: usize = 0;
    // The length of the run of non-dot characters that ends just before `i`.
    let mut run: usize = 0;
    while i < n
        invariant
            0 < n <= usize::MAX,
            n == s@.len(),
            vstd::utf8::is_ascii_chars(s@),
            n == bytes@.len(),
            forall|k: int| 0 <= k < n ==> bytes@[k] == s@[k] as u8,
            i <= n,
            run <= i,
            run <= 62,
            forall|k: int| i - run <= k < i ==> s@[k] != '.',
            run == i || s@[i - run - 1] == '.',
            forall|p: int| 0 <= p && p + 63 <= i ==> #[trigger] window_has_dot(s@, p),
        decreases n - i,
    {
        if bytes[i] == 46 {
            assert(s@[i as int] == '.') by {
                assert(s@[i as int] as u8 == 46);
                assert('\0' <= s@[i as int] <= '\u{7f}');
            };
            run = 0;
        } else {
            assert(s@[i as int] != '.') by {
                assert(s@[i as int] as u8 != 46);
            };
            if run == 62 {
                // The 63 characters at positions i - 62 ..= i are all
                // dot-free: a label has outgrown the limit.
                assert(!labels_within_limit(s@)) by {
                    let p = i - 62;
                    assert(forall|j: int| p <= j < p + 63 ==> s@[j] != '.');
                    assert(!window_has_dot(s@, p));
                };
                return false;
            }
            run = run + 1;
        }
        i = i + 1;
        proof {
            if i >= 63 {
                let p = i - 63;
                if s@[i - 1] == '.' {
                    assert(window_has_dot(s@, p)) by {
                        assert(p <= i - 1 < p + 63 && s@[i - 1] == '.');
                    };
                } else {
                    // The run ending at i - 1 is at most 62 long, so the dot
                    // that bounds it on the left lies inside the window.
                    let d = i - run - 1;
                    assert(window_has_dot(s@, p)) by {
                        assert(p <= d < p + 63 && s@[d] == '.');
                    };
                }
            }
        }
    }
    true
}

} // verus!

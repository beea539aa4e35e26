//! Application identity, and what its version and author list say about a
//! build.

use vstd::prelude::*;
use crate::text::{append_str, is_blank, push_char, str_is_blank};

verus! {

pub const APP_ID: &'static str = "org.synchrosonic.SynchroSonic";
pub const APP_NAME: &'static str = "SynchroSonic";
pub const APP_ICON_NAME: &'static str = "org.synchrosonic.SynchroSonic";
pub const APP_BINARY_NAME: &'static str = "synchrosonic-app";
pub const APP_BUG_TRACKER: &'static str = "https://github.com/UdayaSri0/AudioShare/issues";
pub const APP_RELEASES: &'static str = "https://github.com/UdayaSri0/AudioShare/releases";
pub const APP_SECURITY_POLICY_PATH: &'static str = "SECURITY.md";
pub const APP_CONTRIBUTING_PATH: &'static str = "CONTRIBUTING.md";

/// `s` split at every `:`, empty pieces included.
pub open spec fn colon_pieces(s: Seq<char>) -> Seq<Seq<char>>
    decreases s.len(),
{
    if s.len() == 0 {
        seq![Seq::empty()]
    } else {
        let pieces = colon_pieces(s.drop_last());
        if s.last() == ':' {
            pieces.push(Seq::empty())
        } else {
            pieces.update(pieces.len() - 1, pieces.last().push(s.last()))
        }
    }
}

/// The pieces that hold more than whitespace, joined with `", "`.
pub open spec fn join_nonblank(pieces: Seq<Seq<char>>) -> Seq<char>
    decreases pieces.len(),
{
    if pieces.len() == 0 {
        Seq::empty()
    } else {
        let rest = join_nonblank(pieces.drop_last());
        if is_blank(pieces.last()) {
            rest
        } else if rest.len() == 0 {
            pieces.last()
        } else {
            rest + ", "@ + pieces.last()
        }
    }
}

proof fn lemma_colon_pieces_nonempty(s: Seq<char>)
    ensures
        colon_pieces(s).len() >= 1,
    decreases s.len(),
{
    if s.len() > 0 {
        lemma_colon_pieces_nonempty(s.drop_last());
    }
}

/// A colon-separated author list as shown to people: the names that are
/// not blank, separated by commas.
pub fn authors_display(authors: &str) -> (r: String)
    ensures
        r@ == join_nonblank(colon_pieces(authors@)),
{
    let n = authors.unicode_len();
    let mut done = String::new();
    let mut current = String::new();
    let mut i: usize = 0;
    proof {
        assert(colon_pieces(authors@.subrange(0, 0)) =~= seq![Seq::<char>::empty()]);
    }
    while i < n
        invariant
            n == authors@.len(),
            i <= n,
            colon_pieces(authors@.subrange(0, i as int)).len() >= 1,
            current@ == colon_pieces(authors@.subrange(0, i as int)).last(),
            done@ == join_nonblank(colon_pieces(authors@.subrange(0, i as int)).drop_last()),
        decreases n - i,
    {
        let c = authors.get_char(i);
        let ghost before = colon_pieces(authors@.subrange(0, i as int));
        assert(authors@.subrange(0, i + 1).drop_last() =~= authors@.subrange(0, i as int));
        assert(authors@.subrange(0, i + 1).last() == c);
        if c == ':' {
            proof {
                assert(before.push(Seq::<char>::empty()).drop_last() =~= before);
                assert(before =~= before.drop_last().push(before.last()));
            }
            if !str_is_blank(current.as_str()) {
                if done.as_str().unicode_len() > 0 {
                    append_str(&mut done, ", ");
                }
                append_str(&mut done, current.as_str());
            }
            current = String::new();
        } else {
            proof {
                lemma_colon_pieces_nonempty(authors@.subrange(0, i as int));
                let after = before.update(before.len() - 1, before.last().push(c));
                assert(after.drop_last() =~= before.drop_last());
            }
            push_char(&mut current, c);
        }
        i = i + 1;
    }
    let ghost all = colon_pieces(authors@.subrange(0, n as int));
    assert(authors@.subrange(0, n as int) =~= authors@);
    proof {
        assert(all =~= all.drop_last().push(all.last()));
    }
    if !str_is_blank(current.as_str()) {
        if done.as_str().unicode_len() > 0 {
            append_str(&mut done, ", ");
        }
        append_str(&mut done, current.as_str());
    }
    done
}

/// `pattern` occurs in `s`.
pub open spec fn contains_text(s: Seq<char>, pattern: Seq<char>) -> bool {
    exists|i: int| 0 <= i && i + pattern.len() <= s.len() && #[trigger] s.subrange(i, i + pattern.len()) == pattern
}

fn text_contains(s: &str, pattern: &str) -> (r: bool)
    ensures
        r == contains_text(s@, pattern@),
{
    let n = s.unicode_len();
    let m = pattern.unicode_len();
    if m > n {
        return false;
    }
    let mut i: usize = 0;
    while i <= n - m
        invariant
            n == s@.len(),
            m == pattern@.len(),
            m <= n,
            i <= n - m + 1,
            forall|k: int| 0 <= k < i ==> #[trigger] s@.subrange(k, k + m) != pattern@,
        decreases n - m + 1 - i,
    {
        let mut j: usize = 0;
        let mut same = true;
        while j < m
            invariant
                n == s@.len(),
                m == pattern@.len(),
                i + m <= n,
                j <= m,
                same == forall|k: int| 0 <= k < j ==> s@[i + k] == pattern@[k],
            decreases m - j,
        {
            if s.get_char(i + j) != pattern.get_char(j) {
                same = false;
            }
            j = j + 1;
        }
        if same {
            assert(s@.subrange(i as int, i + m) =~= pattern@);
            return true;
        }
        assert(s@.subrange(i as int, i + m)[(choose|k: int| 0 <= k < m && s@[i + k] != pattern@[k])] != pattern@[(choose|k: int| 0 <= k < m && s@[i + k] != pattern@[k])]);
        i = i + 1;
    }
    proof {
        assert forall|k: int| 0 <= k && k + m <= n implies #[trigger] s@.subrange(k, k + m) != pattern@ by {
            assert(k < i);
        }
    }
    false
}

pub open spec fn release_label(version: Seq<char>) -> Seq<char> {
    if contains_text(version, "-rc."@) {
        "Release candidate"@
    } else if contains_text(version, "-"@) {
        "Pre-release"@
    } else {
        "Stable release"@
    }
}

/// The release channel a version string names.
pub fn release_channel_label(version: &str) -> (r: &'static str)
    ensures
        r@ == release_label(version@),
{
    if text_contains(version, "-rc.") {
        "Release candidate"
    } else if text_contains(version, "-") {
        "Pre-release"
    } else {
        "Stable release"
    }
}

pub open spec fn release_summary(version: Seq<char>) -> Seq<char> {
    if contains_text(version, "-rc."@) {
        "This build is prepared as a public preview while stable packaging and security-reporting blockers are still being closed."@
    } else if contains_text(version, "-"@) {
        "This build is a pre-release and may still change before a stable public tag."@
    } else {
        "This build is prepared as a stable public release."@
    }
}

/// What a version string says about the build, in a sentence.
pub fn release_channel_summary(version: &str) -> (r: &'static str)
    ensures
        r@ == release_summary(version@),
{
    if text_contains(version, "-rc.") {
        "This build is prepared as a public preview while stable packaging and security-reporting blockers are still being closed."
    } else if text_contains(version, "-") {
        "This build is a pre-release and may still change before a stable public tag."
    } else {
        "This build is prepared as a stable public release."
    }
}

} // verus!

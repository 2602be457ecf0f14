//! Paths under a task workspace: joining them with `camino`, and asking
//! whether something is there.
use vstd::prelude::*;

verus! {

/// A path segment that joins the same way on every platform: no separator
/// (`/` or `\`) and no `:` (which could start a Windows prefix).
pub open spec fn is_plain_segment(s: Seq<char>) -> bool {
    forall|i: int| 0 <= i < s.len() ==> #[trigger] s[i] != '/' && s[i] != '\\' && s[i] != ':'
}

/// A base path that joins the same way on every platform: no `:` (so no
/// Windows drive or other prefix) and no leading `\`.
pub open spec fn is_plain_base(base: Seq<char>) -> bool {
    &&& (base.len() > 0 ==> base[0] != '\\')
    &&& forall|i: int| 0 <= i < base.len() ==> #[trigger] base[i] != ':'
}

pub open spec fn is_separator(c: char) -> bool {
    c == '/' || c == '\\'
}

/// `joined` is `base` followed by `segment`: directly when `base` is empty or
/// ends in a separator, else with one separator in between (`/` on Unix,
/// `\` on Windows).
pub open spec fn joined_path(base: Seq<char>, segment: Seq<char>, joined: Seq<char>) -> bool {
    if base.len() == 0 {
        joined == segment
    } else if is_separator(base.last()) {
        joined == base + segment || (base.last() == '\\' && joined == base + seq!['/'] + segment)
    } else {
        exists|c: char| is_separator(c) && joined == base + seq![c] + segment
    }
}

/// Joining a plain segment onto a plain base gives a plain base again.
pub proof fn lemma_join_keeps_plain_base(base: Seq<char>, segment: Seq<char>, joined: Seq<char>)
    requires
        is_plain_base(base),
        is_plain_segment(segment),
        joined_path(base, segment, joined),
    ensures
        is_plain_base(joined),
{
    if base.len() == 0 {
        assert(joined == segment);
    } else if is_separator(base.last()) {
        if joined == base + segment {
            assert(joined[0] == base[0]);
            assert forall|i: int| 0 <= i < joined.len() implies #[trigger] joined[i] != ':' by {
                if i < base.len() {
                    assert(joined[i] == base[i]);
                } else {
                    assert(joined[i] == segment[i - base.len()]);
                }
            }
        } else {
            let sep = seq!['/'];
            assert(joined == base + sep + segment);
            assert(joined[0] == base[0]);
            assert forall|i: int| 0 <= i < joined.len() implies #[trigger] joined[i] != ':' by {
                if i < base.len() {
                    assert(joined[i] == base[i]);
                } else if i == base.len() {
                    assert(joined[i] == '/');
                } else {
                    assert(joined[i] == segment[i - base.len() - 1]);
                }
            }
        }
    } else {
        let c = choose|c: char| is_separator(c) && joined == base + seq![c] + segment;
        assert(joined[0] == base[0]);
        assert forall|i: int| 0 <= i < joined.len() implies #[trigger] joined[i] != ':' by {
            if i < base.len() {
                assert(joined[i] == base[i]);
            } else if i == base.len() {
                assert(joined[i] == c);
            } else {
                assert(joined[i] == segment[i - base.len() - 1]);
            }
        }
    }
}

/// Calls `camino::Utf8PathBuf::join`, which pushes `segment` onto `base` the
/// way `std::path::PathBuf::push` does. The separator it puts in between is
/// the platform's (`/` on Unix, `\` on Windows), so the result is not named
/// but described: for a plain segment onto a plain base (no `:`, so no
/// Windows drive, and no leading `\`, so no verbatim or UNC prefix), the
/// base, then at most one separator, then the segment. For other segments or
/// bases nothing is stated.
#[verifier::external_body]
pub(crate) fn join_path(base: &str, segment: &str) -> (r: String)
    ensures
        is_plain_segment(segment@) && is_plain_base(base@) ==> joined_path(
            base@,
            segment@,
            r@,
        ),
{
    camino::Utf8PathBuf::from(base).join(segment).into_string()
}

/// Calls `camino::Utf8Path::exists`: whether the file system holds something
/// at `path` (relative to the working directory) at the time of the call; an
/// error reading it counts as absent. What is on disk is no function of the
/// argument, so nothing is stated of the result.
#[verifier::external_body]
pub(crate) fn path_exists(path: &str) -> (r: bool) {
    camino::Utf8Path::new(path).exists()
}

} // verus!

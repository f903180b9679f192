//! The computing half of the catalog helpers: turning a shared catalog link
//! into the bare resource id and building the canonical `spotify:` URIs from
//! it.  The network lookups that consume these values are thin glue around
//! the catalog API and live with the unverified runtime.

use vstd::prelude::*;
use vstd::string::*;

verus! {

/// The suffix of `s` after the last occurrence of `mark`; all of `s` when
/// `mark` does not occur.
pub open spec fn tail_after_last(s: Seq<char>, mark: char) -> Seq<char>
    decreases s.len(),
{
    if s.len() == 0 {
        s
    } else if s.last() == mark {
        Seq::<char>::empty()
    } else {
        tail_after_last(s.drop_last(), mark).push(s.last())
    }
}

/// The prefix of `s` before the first occurrence of `mark`; all of `s` when
/// `mark` does not occur.
pub open spec fn head_before_first(s: Seq<char>, mark: char) -> Seq<char>
    decreases s.len(),
{
    if s.len() == 0 {
        s
    } else if s.first() == mark {
        Seq::<char>::empty()
    } else {
        seq![s.first()] + head_before_first(s.drop_first(), mark)
    }
}

/// The resource id carried by a shared catalog link: the last `/`-separated
/// segment, with any `?`-introduced query suffix removed.
pub open spec fn spotify_id_of(url: Seq<char>) -> Seq<char> {
    head_before_first(tail_after_last(url, '/'), '?')
}

/// `tail_after_last` is the subrange that starts right after the last
/// occurrence of `mark`: `cut` is 0 or preceded by `mark`, and no `mark`
/// occurs at or after `cut`.
proof fn lemma_tail_after_last_at(s: Seq<char>, mark: char, cut: int)
    requires
        0 <= cut <= s.len(),
        cut == 0 || s[cut - 1] == mark,
        forall|j: int| cut <= j < s.len() ==> s[j] != mark,
    ensures
        tail_after_last(s, mark) == s.subrange(cut, s.len() as int),
    decreases s.len(),
{
    if s.len() == 0 {
        assert(s.subrange(0, 0) =~= s);
    } else if s.last() == mark {
        assert(cut == s.len()) by {
            if cut < s.len() {
                assert(s[s.len() - 1] != mark);
            }
        }
        assert(s.subrange(cut, s.len() as int) =~= Seq::<char>::empty());
    } else {
        let shorter = s.drop_last();
        assert(cut < s.len()) by {
            if cut == s.len() {
                assert(s[cut - 1] == mark);
            }
        }
        assert forall|j: int| cut <= j < shorter.len() implies shorter[j] != mark by {
            assert(shorter[j] == s[j]);
        }
        lemma_tail_after_last_at(shorter, mark, cut);
        assert(shorter.subrange(cut, shorter.len() as int).push(s.last()) =~= s.subrange(
            cut,
            s.len() as int,
        ));
    }
}

/// `head_before_first` is the subrange that ends at the first occurrence of
/// `mark`: no `mark` occurs before `cut`, and `cut` is the length of `s` or
/// the position of a `mark`.
proof fn lemma_head_before_first_at(s: Seq<char>, mark: char, cut: int)
    requires
        0 <= cut <= s.len(),
        forall|j: int| 0 <= j < cut ==> s[j] != mark,
        cut == s.len() || s[cut] == mark,
    ensures
        head_before_first(s, mark) == s.subrange(0, cut),
    decreases s.len(),
{
    if s.len() == 0 {
        assert(s.subrange(0, 0) =~= s);
    } else if s.first() == mark {
        assert(cut == 0) by {
            if cut > 0 {
                assert(s[0] != mark);
            }
        }
        assert(s.subrange(0, 0) =~= Seq::<char>::empty());
    } else {
        assert(cut > 0) by {
            if cut == 0 {
                assert(s[0] == mark);
            }
        }
        let shorter = s.drop_first();
        assert forall|j: int| 0 <= j < cut - 1 implies shorter[j] != mark by {
            assert(shorter[j] == s[j + 1]);
        }
        lemma_head_before_first_at(shorter, mark, cut - 1);
        assert(seq![s.first()] + shorter.subrange(0, cut - 1) =~= s.subrange(0, cut));
    }
}

/// Extracts the resource id from a shared catalog link: the part of the URL
/// after the last `/`, up to but not including the first `?`.
pub fn get_spotify_id<'a>(url: &'a str) -> (id: &'a str)
    ensures
        id@ == spotify_id_of(url@),
{
    let n = url.unicode_len();
    let mut cut: usize = 0;
    let mut i: usize = 0;
    while i < n
        invariant
            n == url@.len(),
            0 <= cut <= i <= n,
            cut == 0 || url@[cut - 1] == '/',
            forall|j: int| cut <= j < i ==> url@[j] != '/',
        decreases n - i,
    {
        if url.get_char(i) == '/' {
            cut = i + 1;
        }
        i += 1;
    }
    let mut stop: usize = cut;
    while stop < n
        invariant
            n == url@.len(),
            cut <= stop <= n,
            forall|j: int| cut <= j < stop ==> url@[j] != '?',
        ensures
            cut <= stop <= n,
            forall|j: int| cut <= j < stop ==> url@[j] != '?',
            stop == n || url@[stop as int] == '?',
        decreases n - stop,
    {
        if url.get_char(stop) == '?' {
            break;
        }
        stop += 1;
    }
    proof {
        lemma_tail_after_last_at(url@, '/', cut as int);
        let tail = url@.subrange(cut as int, n as int);
        assert forall|j: int| 0 <= j < stop - cut implies tail[j] != '?' by {
            assert(tail[j] == url@[cut + j]);
        }
        if stop < n {
            assert(tail[stop - cut] == url@[stop as int]);
        }
        lemma_head_before_first_at(tail, '?', stop as int - cut as int);
        assert(tail.subrange(0, stop as int - cut as int) =~= url@.subrange(
            cut as int,
            stop as int,
        ));
    }
    url.substring_char(cut, stop)
}

/// The canonical catalog URI for a playlist id.
pub fn playlist_uri(playlist_id: &str) -> (uri: String)
    ensures
        uri@ == "spotify:playlist:"@ + playlist_id@,
{
    let mut uri = "spotify:playlist:".to_owned();
    uri.push_str(playlist_id);
    uri
}

/// The canonical catalog URI for a track id.
pub fn track_uri(track_id: &str) -> (uri: String)
    ensures
        uri@ == "spotify:track:"@ + track_id@,
{
    let mut uri = "spotify:track:".to_owned();
    uri.push_str(track_id);
    uri
}

} // verus!

//! Decisions of the export path: building the object key, naming folders
//! during navigation, and classifying upload failures.
//!
//! The object-store calls themselves (listing buckets and folders,
//! uploading) are a driver's work; their failures are classified with the
//! same taxonomy as every other remote error.

use vstd::prelude::*;
use vstd::string::StringExecFns;

use crate::classify::{contains_seq, contains_substr};
use crate::errors::S3Error;
use crate::text::{str_eq, trim, trim_spec};

verus! {

/// The object key an export writes to: the chosen folder prefix, a fixed
/// stem, the timestamp, and a JSON extension.
pub fn make_export_key(prefix: &str, timestamp: &str) -> (r: String)
    ensures
        r@ == prefix@ + "alternate-contact-list_"@ + timestamp@ + ".json"@,
{
    let mut r = prefix.to_owned();
    r.append("alternate-contact-list_");
    r.append(timestamp);
    r.append(".json");
    r
}

/// Maps a failed upload onto its error: a missing bucket wins, then an
/// access denial; anything else keeps bucket, key and text.
pub fn classify_put_object_error(text: &str, bucket: &str, key: &str) -> (e: S3Error)
    ensures
        contains_seq(text@, "NoSuchBucket"@) ==> (e matches S3Error::NoSuchBucket { bucket: b }
            && b@ == bucket@),
        !contains_seq(text@, "NoSuchBucket"@) && contains_seq(text@, "AccessDenied"@) ==> (e
            matches S3Error::AccessDenied { bucket: b } && b@ == bucket@),
        !contains_seq(text@, "NoSuchBucket"@) && !contains_seq(text@, "AccessDenied"@) ==> (e
            matches S3Error::PutObject { bucket: b, key: k, message: m } && b@ == bucket@ && k@
            == key@ && m@ == text@),
{
    if contains_substr(text, "NoSuchBucket") {
        S3Error::NoSuchBucket { bucket: bucket.to_owned() }
    } else if contains_substr(text, "AccessDenied") {
        S3Error::AccessDenied { bucket: bucket.to_owned() }
    } else {
        S3Error::PutObject {
            bucket: bucket.to_owned(),
            key: key.to_owned(),
            message: text.to_owned(),
        }
    }
}

/// The prefix truncated after the last slash of its parent part: what a
/// "go back" step during folder navigation moves to.  A prefix with no
/// earlier slash goes back to the root (empty).
pub open spec fn parent_of(q: Seq<char>) -> Seq<char>
    decreases q.len(),
{
    if q.len() == 0 {
        q
    } else if q.last() == '/' {
        q
    } else {
        parent_of(q.drop_last())
    }
}

/// Computes the parent of a non-empty folder prefix: the prefix without
/// its final component (the trailing slash itself is ignored).
pub fn parent_prefix(prefix: &str) -> (r: String)
    requires
        prefix@.len() >= 1,
    ensures
        r@ == parent_of(prefix@.drop_last()),
{
    let n = prefix.unicode_len();
    proof {
        assert(prefix@.subrange(0, n as int - 1) =~= prefix@.drop_last());
    }
    let mut j: usize = n - 1;
    while j > 0 && prefix.get_char(j - 1) != '/'
        invariant
            n == prefix@.len(),
            j <= n - 1,
            parent_of(prefix@.drop_last()) == parent_of(prefix@.subrange(0, j as int)),
        decreases j,
    {
        proof {
            assert(prefix@.subrange(0, j as int).drop_last() =~= prefix@.subrange(
                0,
                j as int - 1,
            ));
        }
        j = j - 1;
    }
    proof {
        assert(parent_of(prefix@.subrange(0, j as int)) == prefix@.subrange(0, j as int));
    }
    let r = prefix.substring_char(0, j);
    r.to_owned()
}

/// Repeatedly strips the prefix from the front while it matches.
pub open spec fn strip_prefix_rep(s: Seq<char>, p: Seq<char>) -> Seq<char>
    decreases s.len(),
{
    if p.len() > 0 && s.len() >= p.len() && s.subrange(0, p.len() as int) == p {
        strip_prefix_rep(s.subrange(p.len() as int, s.len() as int), p)
    } else {
        s
    }
}

/// Strips every trailing slash.
pub open spec fn strip_trailing_slashes(s: Seq<char>) -> Seq<char>
    decreases s.len(),
{
    if s.len() > 0 && s.last() == '/' {
        strip_trailing_slashes(s.drop_last())
    } else {
        s
    }
}

/// The name a folder shows as during navigation: the current prefix
/// stripped from the front (repeatedly, while it matches) and the
/// trailing slashes removed.
pub fn folder_display_name(folder: &str, current_prefix: &str) -> (r: String)
    ensures
        r@ == strip_trailing_slashes(strip_prefix_rep(folder@, current_prefix@)),
{
    let n = folder.unicode_len();
    let p = current_prefix.unicode_len();
    proof {
        assert(folder@.subrange(0, n as int) =~= folder@);
    }
    let mut start: usize = 0;
    while p > 0 && n - start >= p && str_eq(
        folder.substring_char(start, start + p),
        current_prefix,
    )
        invariant
            n == folder@.len(),
            p == current_prefix@.len(),
            start <= n,
            strip_prefix_rep(folder@, current_prefix@) == strip_prefix_rep(
                folder@.subrange(start as int, n as int),
                current_prefix@,
            ),
        decreases n - start,
    {
        proof {
            assert(folder@.subrange(start as int, n as int).subrange(0, p as int) =~= folder@
                .subrange(start as int, start as int + p));
            assert(folder@.subrange(start as int, n as int).subrange(
                p as int,
                n as int - start as int,
            ) =~= folder@.subrange(start as int + p, n as int));
        }
        start = start + p;
    }
    proof {
        if p > 0 && n - start >= p {
            assert(folder@.subrange(start as int, n as int).subrange(0, p as int) =~= folder@
                .subrange(start as int, start as int + p));
        }
        assert(strip_prefix_rep(folder@.subrange(start as int, n as int), current_prefix@)
            == folder@.subrange(start as int, n as int));
    }
    let mut end: usize = n;
    while end > start && folder.get_char(end - 1) == '/'
        invariant
            n == folder@.len(),
            start <= end <= n,
            strip_trailing_slashes(folder@.subrange(start as int, n as int))
                == strip_trailing_slashes(folder@.subrange(start as int, end as int)),
        decreases end,
    {
        proof {
            assert(folder@.subrange(start as int, end as int).drop_last() =~= folder@.subrange(
                start as int,
                end as int - 1,
            ));
        }
        end = end - 1;
    }
    proof {
        assert(strip_trailing_slashes(folder@.subrange(start as int, end as int)) == folder@
            .subrange(start as int, end as int));
    }
    let r = folder.substring_char(start, end);
    r.to_owned()
}

/// Normalizes a hand-typed folder path: trims it, and gives a non-empty
/// path its trailing slash when missing.
pub fn normalize_folder_path(input: &str) -> (r: String)
    ensures
        trim_spec(input@).len() == 0 ==> r@ == trim_spec(input@),
        trim_spec(input@).len() > 0 && trim_spec(input@).last() == '/' ==> r@ == trim_spec(input@),
        trim_spec(input@).len() > 0 && trim_spec(input@).last() != '/' ==> r@ == trim_spec(
            input@,
        ).push('/'),
{
    let t = trim(input);
    let n = t.unicode_len();
    let mut r = t.to_owned();
    if n > 0 && t.get_char(n - 1) != '/' {
        crate::text::push_char(&mut r, '/');
    }
    r
}

} // verus!

use vstd::prelude::*;

use crate::text::{dec_i64_of, i64_to_string};

verus! {

/// The slug that slugify::slugify produces for a string with no stop words,
/// separator "-", and no length cap; a function of the input alone.
pub uninterp spec fn slug_of(s: Seq<char>) -> Seq<char>;

/// Relies on slugify::slugify(s, "", "-", None): the lowercased,
/// transliterated, hyphen-separated token it returns depends on the input
/// string alone.
#[verifier::external_body]
fn slugify_name(s: &str) -> (r: String)
    ensures
        r@ == slug_of(s@),
{
    slugify::slugify(s, "", "-", None)
}

/// Relies on names::Generator: a randomly chosen human-readable
/// adjective-noun phrase; nothing is promised of the value.
#[verifier::external_body]
fn random_name() -> (r: String)
{
    let mut generator = names::Generator::default();
    generator.next().unwrap_or(String::new())
}

/// Relies on chrono::Utc::now: the current time in seconds since the Unix
/// epoch; nothing is promised of the value.
#[verifier::external_body]
fn now_timestamp() -> (r: i64)
{
    chrono::Utc::now().timestamp()
}

/// The filename derived for one creation attempt: the slug of a name, a
/// hyphen, a timestamp, and the ".png" extension.
pub open spec fn filename_view(name: Seq<char>, ts: int) -> Seq<char> {
    slug_of(name) + "-"@ + dec_i64_of(ts) + ".png"@
}

/// Sanitizes a name and a timestamp into the `{slug}-{timestamp}.png`
/// filename used for both image destination paths of one attempt.
pub fn derive_filename(name: &str, ts: i64) -> (r: String)
    ensures
        r@ == filename_view(name@, ts as int),
{
    let mut s = slugify_name(name);
    s.append("-");
    let num = i64_to_string(ts);
    s.append(num.as_str());
    s.append(".png");
    s
}

/// Derives the unique-enough filename for a fresh creation attempt: a
/// randomly generated human-readable slug combined with the current
/// timestamp. No uniqueness check against existing files is made.
pub fn fresh_filename() -> (r: String)
    ensures
        exists|name: Seq<char>, ts: int| r@ == filename_view(name, ts),
{
    let name = random_name();
    let ts = now_timestamp();
    let r = derive_filename(name.as_str(), ts);
    proof {
        assert(r@ == filename_view(name@, ts as int));
    }
    r
}

} // verus!

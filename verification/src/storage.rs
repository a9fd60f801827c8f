//! How the objects of a bucket are named in the catalog: the collection
//! that a key prefix stands for, and the name, address and path of a record
//! made from an object.

use vstd::prelude::*;
use vstd::string::*;
use crate::text::chars_of;

verus! {

/// `s` without the slashes at its end.
pub open spec fn without_trailing_slashes(s: Seq<char>) -> Seq<char>
    decreases s.len(),
{
    if s.len() > 0 && s[s.len() - 1] == '/' {
        without_trailing_slashes(s.drop_last())
    } else {
        s
    }
}

/// What is left of `key` behind `prefix` and a slash, where `key` starts
/// with them.
pub open spec fn name_below(key: Seq<char>, prefix: Seq<char>) -> Option<Seq<char>> {
    let lead = prefix + seq!['/'];
    if lead.len() <= key.len() && key.subrange(0, lead.len() as int) == lead {
        Some(key.subrange(lead.len() as int, key.len() as int))
    } else {
        None
    }
}

/// The collection that the key prefix `prefix` of a bucket stands for: the
/// prefix without the slashes at its end.
pub fn collection_name(prefix: &str) -> (r: String)
    ensures
        r@ == without_trailing_slashes(prefix@),
{
    let chars = chars_of(prefix);
    let mut end: usize = chars.len();
    proof {
        assert(chars@.subrange(0, end as int) =~= prefix@);
    }
    while end > 0 && chars[end - 1] == '/'
        invariant
            end <= chars.len(),
            chars@ == prefix@,
            without_trailing_slashes(prefix@) == without_trailing_slashes(
                prefix@.subrange(0, end as int),
            ),
        decreases end,
    {
        proof {
            assert(prefix@.subrange(0, end as int).drop_last() =~= prefix@.subrange(0, end - 1));
        }
        end -= 1;
    }
    String::from_str(prefix.substring_char(0, end))
}

/// The name of the record made from the object `key` of the collection
/// kept under `prefix`: the key without the prefix and the slash behind it.
/// A key that does not lie under the prefix names no record.
pub fn item_name(key: &str, prefix: &str) -> (r: Option<String>)
    ensures
        match r {
            Some(name) => name_below(key@, prefix@) == Some(name@),
            None => name_below(key@, prefix@) is None,
        },
{
    let key_chars = chars_of(key);
    let lead = String::from_str(prefix).concat("/");
    proof {
        reveal_strlit("/");
    }
    let lead_chars = chars_of(lead.as_str());
    if lead_chars.len() > key_chars.len() {
        return None;
    }
    let mut i: usize = 0;
    while i < lead_chars.len()
        invariant
            i <= lead_chars.len() <= key_chars.len(),
            key_chars@ == key@,
            lead_chars@ == prefix@ + seq!['/'],
            forall|k: int| 0 <= k < i ==> key_chars[k] == lead_chars[k],
        decreases lead_chars.len() - i,
    {
        if key_chars[i] != lead_chars[i] {
            return None;
        }
        i += 1;
    }
    proof {
        assert(key_chars@.subrange(0, lead_chars.len() as int) =~= lead_chars@);
    }
    Some(String::from_str(key.substring_char(lead_chars.len(), key_chars.len())))
}

/// The address of the object `key` of `bucket` at the storage service at
/// `host`.
pub fn object_href(host: &str, bucket: &str, key: &str) -> (r: String)
    ensures
        r@ == host@ + "/"@ + bucket@ + "/"@ + key@,
{
    String::from_str(host).concat("/").concat(bucket).concat("/").concat(key)
}

/// The path under which the raster library opens the object `key` of
/// `bucket`.
pub fn object_path(bucket: &str, key: &str) -> (r: String)
    ensures
        r@ == "/vsis3/"@ + bucket@ + "/"@ + key@,
{
    String::from_str("/vsis3/").concat(bucket).concat("/").concat(key)
}

} // verus!

//! What is derived from a user's name.

use vstd::prelude::*;
use vstd::string::StrSliceExecFns;

verus! {

/// The parameters of a request for a user's profile image.
#[derive(Debug)]
pub struct GetUserProfileImageParams {
    pub user_id: String,
}

/// The hash of a name: from the hash of the name without its last character, times 31, plus
/// the last character, reduced to 32 bits.
pub open spec fn spec_name_hash(name: Seq<char>) -> int
    decreases name.len(),
{
    if name.len() == 0 {
        0
    } else {
        (name.last() as u32 + 31 * spec_name_hash(name.drop_last())) % 0x1_0000_0000
    }
}

/// The hue of the colour that stands for a user without a picture: the hash of the name, as
/// an angle in degrees.
pub open spec fn spec_username_to_hsl_color(name: Seq<char>) -> int {
    spec_name_hash(name) % 360
}

proof fn lemma_name_hash_fits(name: Seq<char>)
    ensures
        0 <= spec_name_hash(name) < 0x1_0000_0000,
    decreases name.len(),
{
    if name.len() > 0 {
        lemma_name_hash_fits(name.drop_last());
    }
}

/// The hue, from 0 to 359, of the colour that stands for a user without a picture.
pub fn username_to_hsl_color(name: &str) -> (r: u32)
    ensures
        r == spec_username_to_hsl_color(name@),
        r < 360,
{
    let length = name.unicode_len();
    let mut hash: u32 = 0;
    let mut i: usize = 0;
    assert(name@.take(0) =~= Seq::<char>::empty());
    while i < length
        invariant
            i <= length,
            length == name@.len(),
            hash == spec_name_hash(name@.take(i as int)),
        decreases length - i,
    {
        let c = name.get_char(i);
        proof {
            let upto = name@.take(i + 1);
            assert(upto.drop_last() =~= name@.take(i as int));
            assert(upto.last() == c);
            lemma_name_hash_fits(name@.take(i as int));
        }
        hash = (c as u32).wrapping_add(hash.wrapping_mul(31));
        i += 1;
    }
    assert(name@.take(length as int) =~= name@);
    hash % 360
}

} // verus!

//! The calls that leave the verified code. What is stated of them here is
//! taken on trust.

use vstd::prelude::*;

verus! {

/// A lower-case hexadecimal digit.
pub open spec fn is_lower_hex(c: char) -> bool {
    let code = c as u32;
    (0x30 <= code <= 0x39) || (0x61 <= code <= 0x66)
}

/// The text of a random host identifier: 32 lower-case hexadecimal digits in
/// groups of 8, 4, 4, 4 and 12, with a hyphen between the groups. The third
/// group starts with the version digit 4, the fourth with one of the variant
/// digits 8, 9, a and b.
pub open spec fn is_host_id(text: Seq<char>) -> bool {
    &&& text.len() == 36
    &&& forall|i: int|
        0 <= i < 36 ==> if i == 8 || i == 13 || i == 18 || i == 23 {
            #[trigger] text[i] == '-'
        } else {
            is_lower_hex(text[i])
        }
    &&& text[14] == '4'
    &&& (text[19] == '8' || text[19] == '9' || text[19] == 'a' || text[19] == 'b')
}

/// A fresh host identifier. Calls `uuid::Uuid::new_v4`, which draws 128 bits
/// from the operating system's random source and overwrites six of them with
/// the version and the variant, and turns the result into text by its
/// `Display`, which writes the hyphenated lower-case form. The contract
/// claims that form and those bits, and nothing of the digits that are
/// drawn: that two calls give different identifiers is likely, not proved.
/// Where the operating system hands out no random bytes, `new_v4` panics.
#[verifier::external_body]
pub(crate) fn fresh_host_id() -> (r: String)
    ensures
        is_host_id(r@),
{
    uuid::Uuid::new_v4().to_string()
}

/// The user id of the calling process. Calls `nix::unistd::Uid::current`,
/// which asks the operating system, and takes the number out of the answer
/// with `Uid::as_raw`; nothing is claimed of it.
#[verifier::external_body]
pub(crate) fn current_uid() -> (r: u32) {
    nix::unistd::Uid::current().as_raw()
}

/// Whether `uid` is the privileged user. Calls `nix::unistd::Uid::is_root`
/// on the id that `Uid::from_raw` wraps; `is_root` compares the id with
/// zero.
#[verifier::external_body]
pub(crate) fn is_root_uid(uid: u32) -> (r: bool)
    ensures
        r == (uid == 0),
{
    nix::unistd::Uid::from_raw(uid).is_root()
}

} // verus!

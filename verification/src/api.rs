//! The rules of the message service that need no network: which header a
//! command travels under, and which sender identifiers are worth keeping.

use crate::encoding::base64_decode;
use crate::encoding::base64_decoding;
use crate::encoding::decimal_string;
use crate::encoding::spec_decimal;
use vstd::prelude::*;
use vstd::string::StringExecFns;
use vstd::utf8::encode_utf8;

verus! {

/// The command that registers a proxy and fetches offline messages.
pub open spec fn spec_cmd_register_proxy() -> Seq<char> {
    "trpc.msg.nt_register_proxy.RegisterProxy"@
}

/// The command that fetches the friend list.
pub open spec fn spec_cmd_friend_list() -> Seq<char> {
    "trpc.relation.friendlist/GetFriendList"@
}

/// The command that fetches roaming messages.
pub open spec fn spec_cmd_roam_msg() -> Seq<char> {
    "trpc.msg.nt_register_proxy.RegisterProxy/SsoGetRoamMsg"@
}

/// The command number and the service type under which `cmd` travels, or
/// `None` for a command that the service does not have.
pub open spec fn spec_oidb(cmd: Seq<char>) -> Option<(Seq<char>, Seq<char>)> {
    if cmd == spec_cmd_register_proxy() {
        Some(("0x92cb"@, "1"@))
    } else if cmd == spec_cmd_friend_list() {
        Some(("0xfd4"@, "2"@))
    } else if cmd == spec_cmd_roam_msg() {
        Some(("0x913f"@, "2"@))
    } else {
        None
    }
}

/// Whether the sender identifier `uid` is nothing but the account number
/// `uin` written in base64.
pub open spec fn spec_is_plain_uid(uin: u64, uid: Seq<char>) -> bool {
    base64_decoding(uid) == Some(encode_utf8(spec_decimal(uin as nat)))
}

/// Whether a sender is worth keeping: the account number is not zero, the
/// identifier is not empty, and `decoded`, the bytes that the identifier
/// spells in base64, are not the decimal numeral of the account number.
pub open spec fn spec_keeps_uid(uin: u64, uid: Seq<char>, decoded: Option<Seq<u8>>) -> bool {
    uin > 0 && uid.len() > 0 && decoded != Some(encode_utf8(spec_decimal(uin as nat)))
}

/// The entry that a sender adds to the identifier book: the decimal
/// numeral of the account number, and the identifier.
pub open spec fn spec_uid_entry(uin: u64, uid: Seq<char>) -> Option<(Seq<char>, Seq<char>)> {
    if spec_keeps_uid(uin, uid, base64_decoding(uid)) {
        Some((spec_decimal(uin as nat), uid))
    } else {
        None
    }
}

/// The bytes of a decoding that may have failed.
pub open spec fn spec_decoded(decoded: Option<Vec<u8>>) -> Option<Seq<u8>> {
    match decoded {
        Some(bytes) => Some(bytes@),
        None => None,
    }
}

/// Looks up the command number and the service type of a command.
pub fn oidb_entry(cmd: &str) -> (r: Option<(&'static str, &'static str)>)
    ensures
        match r {
            Some((command, service_type)) => spec_oidb(cmd@) == Some((command@, service_type@)),
            None => spec_oidb(cmd@) is None,
        },
{
    let wanted = String::from_str(cmd);
    if wanted == String::from_str("trpc.msg.nt_register_proxy.RegisterProxy") {
        Some(("0x92cb", "1"))
    } else if wanted == String::from_str("trpc.relation.friendlist/GetFriendList") {
        Some(("0xfd4", "2"))
    } else if wanted == String::from_str("trpc.msg.nt_register_proxy.RegisterProxy/SsoGetRoamMsg") {
        Some(("0x913f", "2"))
    } else {
        None
    }
}

/// Whether two byte strings are the same.
fn same_bytes(a: &[u8], b: &[u8]) -> (r: bool)
    ensures
        r == (a@ == b@),
{
    if a.len() != b.len() {
        return false;
    }
    let mut i: usize = 0;
    while i < a.len()
        invariant
            i <= a.len(),
            a.len() == b.len(),
            forall|j: int| 0 <= j < i ==> a[j] == b[j],
        decreases a.len() - i,
    {
        if a[i] != b[i] {
            return false;
        }
        i += 1;
    }
    assert(a@ =~= b@);
    true
}

/// Decides whether a sender is worth keeping, given the bytes that its
/// identifier spells in base64 (`None` where it is no base64 at all).
pub fn keeps_uid(from_uin: u64, from_uid: &str, decoded: &Option<Vec<u8>>) -> (r: bool)
    ensures
        r == spec_keeps_uid(from_uin, from_uid@, spec_decoded(*decoded)),
{
    if from_uin > 0 && !from_uid.is_empty() {
        match decoded {
            Some(bytes) => {
                let numeral = decimal_string(from_uin);
                !same_bytes(bytes.as_slice(), numeral.as_str().as_bytes())
            },
            None => true,
        }
    } else {
        false
    }
}

/// The entry that a sender adds to the identifier book, if it is worth
/// keeping: a sender whose identifier is only its account number in
/// base64 is not.
pub fn uid_entry(from_uin: u64, from_uid: &str) -> (r: Option<(String, String)>)
    ensures
        match r {
            Some((key, uid)) => spec_uid_entry(from_uin, from_uid@) == Some((key@, uid@)),
            None => spec_uid_entry(from_uin, from_uid@) is None,
        },
{
    let decoded = base64_decode(from_uid);
    if keeps_uid(from_uin, from_uid, &decoded) {
        Some((decimal_string(from_uin), String::from_str(from_uid)))
    } else {
        None
    }
}

} // verus!

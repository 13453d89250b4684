//! What both content sources share: the names under which the resources of a
//! layer are found in an archive and at a service, and the checks made on
//! what comes back before it is parsed.

use vstd::prelude::*;
use crate::error::SceneError;
use crate::layer::{Metadata, SceneLayerInfo};

verus! {

/// The decimal digit for `d`, which is below ten.
pub open spec fn digit(d: nat) -> char {
    if d == 0 {
        '0'
    } else if d == 1 {
        '1'
    } else if d == 2 {
        '2'
    } else if d == 3 {
        '3'
    } else if d == 4 {
        '4'
    } else if d == 5 {
        '5'
    } else if d == 6 {
        '6'
    } else if d == 7 {
        '7'
    } else if d == 8 {
        '8'
    } else {
        '9'
    }
}

/// `n` written in decimal, without leading zeros.
pub open spec fn decimal(n: nat) -> Seq<char>
    decreases n,
{
    if n < 10 {
        seq![digit(n)]
    } else {
        decimal(n / 10).push(digit(n % 10))
    }
}

/// Name of the archive entry that holds the layer descriptor.
pub open spec fn descriptor_entry() -> Seq<char> {
    "3dSceneLayer.json.gz"@
}

/// Name of the archive entry that holds the node page `page`.
pub open spec fn node_page_entry(page: nat) -> Seq<char> {
    "nodepages/"@ + decimal(page) + ".json.gz"@
}

/// Path of the layer descriptor below the base endpoint of a service.
pub open spec fn descriptor_path() -> Seq<char> {
    "layers/0"@
}

/// Path of the node page `page` below the base endpoint of a service.
pub open spec fn node_page_path(page: nat) -> Seq<char> {
    "layers/0/nodepages/"@ + decimal(page)
}

/// `needle` stands somewhere in `hay` as a run of consecutive characters.
pub open spec fn occurs_in(needle: Seq<char>, hay: Seq<char>) -> bool {
    exists|i: int|
        0 <= i && i + needle.len() <= hay.len() && #[trigger] hay.subrange(i, i + needle.len())
            == needle
}

/// The names among `names` that belong to node pages, in their order.
pub open spec fn node_page_paths(names: Seq<String>) -> Seq<String>
    decreases names.len(),
{
    if names.len() == 0 {
        Seq::empty()
    } else {
        let earlier = node_page_paths(names.drop_last());
        if occurs_in("nodepages"@, names.last()@) {
            earlier.push(names.last())
        } else {
            earlier
        }
    }
}

/// A status from 200 to 299 is a success.
pub open spec fn is_success(status: u16) -> bool {
    200 <= status < 300
}

/// The bytes open with the two bytes that every gzip member starts with.
pub open spec fn has_gzip_magic(bytes: Seq<u8>) -> bool {
    bytes.len() >= 2 && bytes[0] == 0x1f && bytes[1] == 0x8b
}

fn digit_str(d: usize) -> (s: &'static str)
    requires
        d < 10,
    ensures
        s@ == seq![digit(d as nat)],
{
    proof {
        reveal_strlit("0");
        reveal_strlit("1");
        reveal_strlit("2");
        reveal_strlit("3");
        reveal_strlit("4");
        reveal_strlit("5");
        reveal_strlit("6");
        reveal_strlit("7");
        reveal_strlit("8");
        reveal_strlit("9");
    }
    let s = if d == 0 {
        "0"
    } else if d == 1 {
        "1"
    } else if d == 2 {
        "2"
    } else if d == 3 {
        "3"
    } else if d == 4 {
        "4"
    } else if d == 5 {
        "5"
    } else if d == 6 {
        "6"
    } else if d == 7 {
        "7"
    } else if d == 8 {
        "8"
    } else {
        "9"
    };
    assert(s@ =~= seq![digit(d as nat)]);
    s
}

/// `n` in decimal.
pub fn decimal_string(n: usize) -> (s: String)
    ensures
        s@ == decimal(n as nat),
    decreases n,
{
    if n < 10 {
        digit_str(n).to_owned()
    } else {
        let mut s = decimal_string(n / 10);
        s.append(digit_str(n % 10));
        assert(s@ =~= decimal(n as nat));
        s
    }
}

/// Name of the archive entry that holds the layer descriptor.
pub fn descriptor_entry_name() -> (s: String)
    ensures
        s@ == descriptor_entry(),
{
    "3dSceneLayer.json.gz".to_owned()
}

/// Name of the archive entry that holds the node page `page`.
pub fn node_page_entry_name(page: usize) -> (s: String)
    ensures
        s@ == node_page_entry(page as nat),
{
    let mut s = "nodepages/".to_owned();
    let number = decimal_string(page);
    s.append(number.as_str());
    s.append(".json.gz");
    s
}

/// Path of the node page `page` below the base endpoint of a service.
pub fn node_page_rest_path(page: usize) -> (s: String)
    ensures
        s@ == node_page_path(page as nat),
{
    let mut s = "layers/0/nodepages/".to_owned();
    let number = decimal_string(page);
    s.append(number.as_str());
    s
}

impl SceneLayerInfo {
    /// Path of the layer descriptor below the base endpoint of a service.
    pub fn rest_path() -> (s: String)
        ensures
            s@ == descriptor_path(),
    {
        "layers/0".to_owned()
    }
}

impl Metadata {
    /// Path of the dataset's metadata below the base endpoint of a service.
    pub fn rest_path() -> (s: String)
        ensures
            s@ == "metadata.json"@,
    {
        "metadata.json".to_owned()
    }
}

/// `str::contains` of the standard library, with a string as the pattern:
/// true exactly when the pattern stands somewhere in the text as a run of
/// consecutive characters. The standard library is taken at its word for it.
#[verifier::external_body]
fn str_contains(hay: &str, needle: &str) -> (b: bool)
    ensures
        b == occurs_in(needle@, hay@),
{
    hay.contains(needle)
}

/// Whether an archive entry of this name holds a node page.
pub fn is_node_page_path(name: &str) -> (b: bool)
    ensures
        b == occurs_in("nodepages"@, name@),
{
    str_contains(name, "nodepages")
}

/// The entry names of an archive that belong to node pages, in the order in
/// which the archive lists them.
pub fn find_node_page_paths(names: Vec<String>) -> (paths: Vec<String>)
    ensures
        paths@ == node_page_paths(names@),
{
    let mut paths: Vec<String> = Vec::new();
    let ghost all = names@;
    for name in it: names
        invariant
            it.seq() == all,
            paths@ == node_page_paths(all.take(it.index() as int)),
    {
        proof {
            let upto = all.take(it.index() + 1);
            assert(upto.drop_last() =~= all.take(it.index() as int));
            assert(upto.last() == name);
        }
        if is_node_page_path(name.as_str()) {
            paths.push(name);
        }
    }
    proof {
        assert(all.take(all.len() as int) =~= all);
    }
    paths
}

/// Accepts the status of a response: a success lets the body through, any
/// other status is reported with its number.
pub fn check_status(status: u16) -> (r: Result<(), SceneError>)
    ensures
        is_success(status) ==> r is Ok,
        !is_success(status) ==> r == Err::<(), SceneError>(SceneError::HttpStatus(status)),
{
    if 200 <= status && status < 300 {
        Ok(())
    } else {
        Err(SceneError::HttpStatus(status))
    }
}

/// What an archive gave for a named entry.
#[derive(Debug)]
pub enum Entry {
    /// The archive has no entry of that name.
    Missing,
    /// The entry is there but its stream could not be read to the end.
    Unreadable,
    /// The stored bytes of the entry.
    Stored(Vec<u8>),
}

/// What came of a request to a service.
#[derive(Debug)]
pub enum Reply {
    /// The request failed before any status arrived.
    Failed,
    /// The service answered.
    Answered { status: u16, body: Vec<u8> },
}

/// The bytes of an archive entry: `NotFound` for a missing entry,
/// `DecodeFailure` for one that cannot be read.
pub fn payload_of(entry: Entry) -> (r: Result<Vec<u8>, SceneError>)
    ensures
        match entry {
            Entry::Missing => r == Err::<Vec<u8>, SceneError>(SceneError::NotFound),
            Entry::Unreadable => r == Err::<Vec<u8>, SceneError>(SceneError::DecodeFailure),
            Entry::Stored(bytes) => r == Ok::<Vec<u8>, SceneError>(bytes),
        },
{
    match entry {
        Entry::Missing => Err(SceneError::NotFound),
        Entry::Unreadable => Err(SceneError::DecodeFailure),
        Entry::Stored(bytes) => Ok(bytes),
    }
}

/// The body of a reply: `Transport` where the request failed, `HttpStatus`
/// with the status where the service answered with anything but a success.
/// Nothing is retried.
pub fn body_of(reply: Reply) -> (r: Result<Vec<u8>, SceneError>)
    ensures
        match reply {
            Reply::Failed => r == Err::<Vec<u8>, SceneError>(SceneError::Transport),
            Reply::Answered { status, body } => if is_success(status) {
                r == Ok::<Vec<u8>, SceneError>(body)
            } else {
                r == Err::<Vec<u8>, SceneError>(SceneError::HttpStatus(status))
            },
        },
{
    match reply {
        Reply::Failed => Err(SceneError::Transport),
        Reply::Answered { status, body } => match check_status(status) {
            Ok(()) => Ok(body),
            Err(e) => Err(e),
        },
    }
}

/// Whether a payload is gzip-compressed and has to be inflated before it is
/// parsed. Entries may be stored either way.
pub fn is_gzip(bytes: &[u8]) -> (b: bool)
    ensures
        b == has_gzip_magic(bytes@),
{
    bytes.len() >= 2 && bytes[0] == 0x1f && bytes[1] == 0x8b
}

} // verus!

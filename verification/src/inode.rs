//! Inode numbers: how a catalog identity and its kind are packed into 64 bits.
//!
//! The root directory is inode 1. Each of the four kinds owns one high bit,
//! and that bit alone is the inode of the kind's top-level directory. The
//! inode of an entity is its identity with the kind's bit set, so identities
//! must stay below bit 51.

use vstd::prelude::*;

verus! {

/// Inode of the root directory.
pub const ROOT: u64 = 1;

/// Bit 51: the photo namespace, and the inode of the `photos` directory.
pub const PHOTO: u64 = 0x0008_0000_0000_0000;

/// Bit 52: the video namespace, and the inode of the `videos` directory.
pub const VIDEO: u64 = 0x0010_0000_0000_0000;

/// Bit 53: the tag namespace, and the inode of the `tags` directory.
pub const TAG: u64 = 0x0020_0000_0000_0000;

/// Bit 54: the event namespace, and the inode of the `events` directory.
pub const EVENT: u64 = 0x0040_0000_0000_0000;

/// Identities are smaller than this: they never reach a namespace bit.
pub const IDENTITY_LIMIT: u64 = 0x0008_0000_0000_0000;

/// What an inode stands for.
#[derive(Clone, Copy, Debug, PartialEq, Eq, Structural)]
pub enum Node {
    Root,
    PhotosRoot,
    VideosRoot,
    TagsRoot,
    EventsRoot,
    Photo(u64),
    Video(u64),
    Tag(u64),
    Event(u64),
}

/// The inode belongs to no namespace: it is neither a fixed directory nor one
/// namespace bit over a non-zero identity.
#[derive(Clone, Copy, Debug, PartialEq, Eq, Structural)]
pub struct UnknownNamespace;

impl Node {
    /// A node that has an inode of its own. An entity needs a non-zero
    /// identity below the namespace bits: identity zero would collide with
    /// the directory of its kind.
    pub open spec fn valid(self) -> bool {
        match self {
            Node::Photo(id) | Node::Video(id) | Node::Tag(id) | Node::Event(id) => 0 < id
                < IDENTITY_LIMIT,
            _ => true,
        }
    }

    /// The namespace bit of an entity, or the whole inode of a fixed directory.
    pub open spec fn base(self) -> u64 {
        match self {
            Node::Root => ROOT,
            Node::PhotosRoot | Node::Photo(_) => PHOTO,
            Node::VideosRoot | Node::Video(_) => VIDEO,
            Node::TagsRoot | Node::Tag(_) => TAG,
            Node::EventsRoot | Node::Event(_) => EVENT,
        }
    }

    /// The identity of an entity; zero for a fixed directory.
    pub open spec fn identity(self) -> u64 {
        match self {
            Node::Photo(id) | Node::Video(id) | Node::Tag(id) | Node::Event(id) => id,
            _ => 0,
        }
    }
}

/// The inode of a node: the identity with the namespace bit set.
pub open spec fn encode_spec(node: Node) -> u64 {
    node.identity() | node.base()
}

/// The node of an inode. The four namespaces are the four disjoint ranges
/// that lie strictly between a namespace bit and that bit plus
/// `IDENTITY_LIMIT`.
pub open spec fn decode_spec(inode: u64) -> Result<Node, UnknownNamespace> {
    if inode == ROOT {
        Ok(Node::Root)
    } else if inode == PHOTO {
        Ok(Node::PhotosRoot)
    } else if inode == VIDEO {
        Ok(Node::VideosRoot)
    } else if inode == TAG {
        Ok(Node::TagsRoot)
    } else if inode == EVENT {
        Ok(Node::EventsRoot)
    } else if PHOTO < inode < PHOTO + IDENTITY_LIMIT {
        Ok(Node::Photo((inode - PHOTO) as u64))
    } else if VIDEO < inode < VIDEO + IDENTITY_LIMIT {
        Ok(Node::Video((inode - VIDEO) as u64))
    } else if TAG < inode < TAG + IDENTITY_LIMIT {
        Ok(Node::Tag((inode - TAG) as u64))
    } else if EVENT < inode < EVENT + IDENTITY_LIMIT {
        Ok(Node::Event((inode - EVENT) as u64))
    } else {
        Err(UnknownNamespace)
    }
}

/// Setting a namespace bit over an identity adds it; clearing it again
/// subtracts it.
pub proof fn lemma_flag_is_offset(id: u64, flag: u64)
    requires
        id < IDENTITY_LIMIT,
        flag == PHOTO || flag == VIDEO || flag == TAG || flag == EVENT,
    ensures
        id | flag == id + flag,
        (id | flag) & flag == flag,
        (id | flag) & !flag == id,
{
    assert(id | flag == id + flag && (id | flag) & flag == flag && (id | flag) & !flag == id)
        by (bit_vector)
        requires
            id < 0x0008_0000_0000_0000u64,
            flag == 0x0008_0000_0000_0000u64 || flag == 0x0010_0000_0000_0000u64 || flag
                == 0x0020_0000_0000_0000u64 || flag == 0x0040_0000_0000_0000u64,
    ;
}

/// The five fixed directories have the five reserved inodes.
pub proof fn lemma_fixed_inodes()
    ensures
        encode_spec(Node::Root) == ROOT,
        encode_spec(Node::PhotosRoot) == PHOTO,
        encode_spec(Node::VideosRoot) == VIDEO,
        encode_spec(Node::TagsRoot) == TAG,
        encode_spec(Node::EventsRoot) == EVENT,
{
    assert(0u64 | 1u64 == 1u64) by (bit_vector);
    assert(0u64 | 0x0008_0000_0000_0000u64 == 0x0008_0000_0000_0000u64) by (bit_vector);
    assert(0u64 | 0x0010_0000_0000_0000u64 == 0x0010_0000_0000_0000u64) by (bit_vector);
    assert(0u64 | 0x0020_0000_0000_0000u64 == 0x0020_0000_0000_0000u64) by (bit_vector);
    assert(0u64 | 0x0040_0000_0000_0000u64 == 0x0040_0000_0000_0000u64) by (bit_vector);
}

/// Packs a node into its inode.
pub fn encode(node: Node) -> (inode: u64)
    ensures
        inode == encode_spec(node),
{
    proof {
        lemma_fixed_inodes();
    }
    match node {
        Node::Root => ROOT,
        Node::PhotosRoot => PHOTO,
        Node::VideosRoot => VIDEO,
        Node::TagsRoot => TAG,
        Node::EventsRoot => EVENT,
        Node::Photo(id) => id | PHOTO,
        Node::Video(id) => id | VIDEO,
        Node::Tag(id) => id | TAG,
        Node::Event(id) => id | EVENT,
    }
}

/// Unpacks an inode. Inodes with no namespace bit, with more than one, with
/// a bit above the event bit, or with a namespace bit over identity zero
/// (other than the four directories themselves) belong to no namespace.
pub fn decode_inode(inode: u64) -> (node: Result<Node, UnknownNamespace>)
    ensures
        node == decode_spec(inode),
{
    if inode == ROOT {
        Ok(Node::Root)
    } else if inode == PHOTO {
        Ok(Node::PhotosRoot)
    } else if inode == VIDEO {
        Ok(Node::VideosRoot)
    } else if inode == TAG {
        Ok(Node::TagsRoot)
    } else if inode == EVENT {
        Ok(Node::EventsRoot)
    } else if PHOTO < inode && inode < VIDEO {
        Ok(Node::Photo(inode - PHOTO))
    } else if VIDEO < inode && inode < VIDEO + IDENTITY_LIMIT {
        Ok(Node::Video(inode - VIDEO))
    } else if TAG < inode && inode < TAG + IDENTITY_LIMIT {
        Ok(Node::Tag(inode - TAG))
    } else if EVENT < inode && inode < EVENT + IDENTITY_LIMIT {
        Ok(Node::Event(inode - EVENT))
    } else {
        Err(UnknownNamespace)
    }
}

/// Decoding inverts encoding on every valid node.
pub proof fn lemma_decode_encode(node: Node)
    requires
        node.valid(),
    ensures
        decode_spec(encode_spec(node)) == Ok::<Node, UnknownNamespace>(node),
{
    match node {
        Node::Photo(id) | Node::Video(id) | Node::Tag(id) | Node::Event(id) => {
            lemma_flag_is_offset(id, node.base());
        },
        _ => {
            lemma_fixed_inodes();
        },
    }
}

/// Encoding inverts decoding: an inode that decodes at all decodes to a valid
/// node, and that node encodes to the same inode.
pub proof fn lemma_encode_decode(inode: u64)
    requires
        decode_spec(inode) is Ok,
    ensures
        decode_spec(inode)->Ok_0.valid(),
        encode_spec(decode_spec(inode)->Ok_0) == inode,
{
    let node = decode_spec(inode)->Ok_0;
    match node {
        Node::Photo(id) | Node::Video(id) | Node::Tag(id) | Node::Event(id) => {
            lemma_flag_is_offset(id, node.base());
        },
        _ => {
            lemma_fixed_inodes();
        },
    }
}

/// Two valid nodes with the same inode are the same node: the namespaces do
/// not overlap.
pub proof fn lemma_encode_injective(a: Node, b: Node)
    requires
        a.valid(),
        b.valid(),
        encode_spec(a) == encode_spec(b),
    ensures
        a == b,
{
    lemma_decode_encode(a);
    lemma_decode_encode(b);
}

/// A decoded entity carries exactly its namespace bit, and masking that bit
/// out leaves the identity.
pub proof fn lemma_decoded_bits(inode: u64)
    requires
        decode_spec(inode) is Ok,
        decode_spec(inode)->Ok_0.identity() != 0,
    ensures
        inode & decode_spec(inode)->Ok_0.base() == decode_spec(inode)->Ok_0.base(),
        inode & !decode_spec(inode)->Ok_0.base() == decode_spec(inode)->Ok_0.identity(),
{
    let node = decode_spec(inode)->Ok_0;
    lemma_encode_decode(inode);
    lemma_flag_is_offset(node.identity(), node.base());
}

} // verus!

//! The engine's description of a file type, and the flattened record in which
//! it crosses the boundary.

use vstd::prelude::*;
use crate::text::{
    bytes_of, can_cross, contains_nul, content, is_terminated, terminate, terminated,
};

verus! {

/// What the engine says of a file type, held as owned text.
#[derive(Clone, Debug, PartialEq, Eq)]
pub struct TypeDescriptor {
    /// The unique label of the file type.
    pub label: String,
    /// Its MIME type.
    pub mime_type: String,
    /// The group it belongs to.
    pub group: String,
    /// What it is, in words.
    pub description: String,
    /// The file extensions it goes by, in the engine's order.
    pub extensions: Vec<String>,
    /// Whether files of this type are text.
    pub is_text: bool,
}

/// The flattened record: every text in a terminated buffer of its own, the
/// extensions in an array of such buffers beside its length, the flag in one
/// byte. A part that is absent stands for a null pointer.
#[derive(Clone, Debug, PartialEq, Eq)]
pub struct TypeInfo {
    /// The label, terminated.
    pub label: Option<Vec<u8>>,
    /// The MIME type, terminated.
    pub mime_type: Option<Vec<u8>>,
    /// The group, terminated.
    pub group: Option<Vec<u8>>,
    /// The description, terminated.
    pub description: Option<Vec<u8>>,
    /// How many extensions the array holds.
    pub extensions_length: usize,
    /// The extensions, each terminated.
    pub extensions: Option<Vec<Vec<u8>>>,
    /// 1 for a text type, 0 for any other.
    pub is_text: u8,
}

/// What a flattened record holds, as plain sequences of bytes.
#[verifier::ext_equal]
pub ghost struct TypeInfoView {
    pub label: Option<Seq<u8>>,
    pub mime_type: Option<Seq<u8>>,
    pub group: Option<Seq<u8>>,
    pub description: Option<Seq<u8>>,
    pub extensions_length: usize,
    pub extensions: Option<Seq<Seq<u8>>>,
    pub is_text: u8,
}

/// The bytes of a buffer that may be absent.
pub open spec fn buffer_view(buffer: Option<Vec<u8>>) -> Option<Seq<u8>> {
    match buffer {
        Some(bytes) => Some(bytes@),
        None => None,
    }
}

/// The one byte that stands for a flag.
pub open spec fn flag_byte(flag: bool) -> u8 {
    if flag {
        1u8
    } else {
        0u8
    }
}

impl View for TypeInfo {
    type V = TypeInfoView;

    open spec fn view(&self) -> TypeInfoView {
        TypeInfoView {
            label: buffer_view(self.label),
            mime_type: buffer_view(self.mime_type),
            group: buffer_view(self.group),
            description: buffer_view(self.description),
            extensions_length: self.extensions_length,
            extensions: match self.extensions {
                Some(array) => Some(Seq::new(array@.len(), |i: int| array@[i]@)),
                None => None,
            },
            is_text: self.is_text,
        }
    }
}

impl TypeInfoView {
    /// What holds of every record that the library hands out, and of one with
    /// parts missing: each buffer that is there is a terminated text, the
    /// length is that of the array (0 without one), the flag is 0 or 1.
    pub open spec fn well_formed(self) -> bool {
        &&& self.label matches Some(buffer) ==> is_terminated(buffer)
        &&& self.mime_type matches Some(buffer) ==> is_terminated(buffer)
        &&& self.group matches Some(buffer) ==> is_terminated(buffer)
        &&& self.description matches Some(buffer) ==> is_terminated(buffer)
        &&& match self.extensions {
            Some(array) => {
                &&& array.len() == self.extensions_length
                &&& forall|i: int| 0 <= i < array.len() ==> is_terminated(#[trigger] array[i])
            },
            None => self.extensions_length == 0,
        }
        &&& self.is_text <= 1
    }

    /// Whether no part is missing.
    pub open spec fn is_complete(self) -> bool {
        &&& self.label is Some
        &&& self.mime_type is Some
        &&& self.group is Some
        &&& self.description is Some
        &&& self.extensions is Some
    }
}

impl TypeDescriptor {
    /// Whether every text of the descriptor can be held in a terminated
    /// buffer: none has a zero byte.
    pub open spec fn can_cross(self) -> bool {
        &&& can_cross(self.label@)
        &&& can_cross(self.mime_type@)
        &&& can_cross(self.group@)
        &&& can_cross(self.description@)
        &&& forall|i: int|
            0 <= i < self.extensions@.len() ==> can_cross(#[trigger] self.extensions@[i]@)
    }

    /// The record that the descriptor flattens to: each text as its bytes and
    /// a terminator, the extensions in the same order, the flag as one byte.
    pub open spec fn projection(self) -> TypeInfoView {
        TypeInfoView {
            label: Some(terminated(bytes_of(self.label@))),
            mime_type: Some(terminated(bytes_of(self.mime_type@))),
            group: Some(terminated(bytes_of(self.group@))),
            description: Some(terminated(bytes_of(self.description@))),
            extensions_length: self.extensions@.len() as usize,
            extensions: Some(
                Seq::new(
                    self.extensions@.len(),
                    |i: int| terminated(bytes_of(self.extensions@[i]@)),
                ),
            ),
            is_text: flag_byte(self.is_text),
        }
    }

    /// Whether two descriptors say the same: the same bytes in each text, the
    /// same extensions in the same order, the same flag.
    pub open spec fn same_as(self, other: TypeDescriptor) -> bool {
        &&& bytes_of(self.label@) == bytes_of(other.label@)
        &&& bytes_of(self.mime_type@) == bytes_of(other.mime_type@)
        &&& bytes_of(self.group@) == bytes_of(other.group@)
        &&& bytes_of(self.description@) == bytes_of(other.description@)
        &&& self.extensions@.len() == other.extensions@.len()
        &&& forall|i: int|
            0 <= i < self.extensions@.len() ==> bytes_of(#[trigger] self.extensions@[i]@)
                == bytes_of(other.extensions@[i]@)
        &&& self.is_text == other.is_text
    }

    /// Copies borrowed fields into a descriptor that owns its text.
    pub fn new(
        label: &str,
        mime_type: &str,
        group: &str,
        description: &str,
        extensions: &[&str],
        is_text: bool,
    ) -> (info: TypeDescriptor)
        ensures
            info.label@ == label@,
            info.mime_type@ == mime_type@,
            info.group@ == group@,
            info.description@ == description@,
            info.extensions@.len() == extensions@.len(),
            forall|i: int|
                0 <= i < extensions@.len() ==> #[trigger] info.extensions@[i]@ == extensions@[i]@,
            info.is_text == is_text,
    {
        let mut owned: Vec<String> = Vec::new();
        let mut i: usize = 0;
        while i < extensions.len()
            invariant
                i <= extensions.len(),
                owned@.len() == i,
                forall|j: int| 0 <= j < i ==> #[trigger] owned@[j]@ == extensions@[j]@,
            decreases extensions.len() - i,
        {
            owned.push(extensions[i].to_owned());
            i += 1;
        }
        TypeDescriptor {
            label: label.to_owned(),
            mime_type: mime_type.to_owned(),
            group: group.to_owned(),
            description: description.to_owned(),
            extensions: owned,
            is_text,
        }
    }

    /// Says whether every text of the descriptor can be held in a terminated
    /// buffer.
    pub fn crosses(&self) -> (ok: bool)
        ensures
            ok == self.can_cross(),
    {
        if contains_nul(self.label.as_str().as_bytes()) || contains_nul(
            self.mime_type.as_str().as_bytes(),
        ) || contains_nul(self.group.as_str().as_bytes()) || contains_nul(
            self.description.as_str().as_bytes(),
        ) {
            return false;
        }
        let mut i: usize = 0;
        while i < self.extensions.len()
            invariant
                i <= self.extensions.len(),
                forall|j: int| 0 <= j < i ==> can_cross(#[trigger] self.extensions@[j]@),
            decreases self.extensions.len() - i,
        {
            if contains_nul(self.extensions[i].as_str().as_bytes()) {
                assert(!can_cross(self.extensions@[i as int]@));
                return false;
            }
            i += 1;
        }
        true
    }
}

impl TypeInfo {
    /// Flattens a descriptor into a record that owns every part: each text is
    /// copied into a terminated buffer of its own, the extensions into an
    /// array of such buffers, and the flag becomes one byte. A descriptor with
    /// a zero byte in a text has no such record and is left out.
    pub fn from(info: &TypeDescriptor) -> (projection: TypeInfo)
        requires
            info.can_cross(),
        ensures
            projection@ == info.projection(),
            projection@.well_formed(),
            projection@.is_complete(),
    {
        let mut extensions: Vec<Vec<u8>> = Vec::new();
        let mut i: usize = 0;
        while i < info.extensions.len()
            invariant
                i <= info.extensions.len(),
                info.can_cross(),
                extensions@.len() == i,
                forall|j: int|
                    0 <= j < i ==> #[trigger] extensions@[j]@ == terminated(
                        bytes_of(info.extensions@[j]@),
                    ),
            decreases info.extensions.len() - i,
        {
            let buffer = terminate(info.extensions[i].as_str());
            extensions.push(buffer);
            i += 1;
        }
        let projection = TypeInfo {
            label: Some(terminate(info.label.as_str())),
            mime_type: Some(terminate(info.mime_type.as_str())),
            group: Some(terminate(info.group.as_str())),
            description: Some(terminate(info.description.as_str())),
            extensions_length: extensions.len(),
            extensions: Some(extensions),
            is_text: if info.is_text {
                1
            } else {
                0
            },
        };
        proof {
            assert(projection@.extensions->0 =~= info.projection().extensions->0);
            lemma_projection_well_formed(*info);
        }
        projection
    }
}

/// The record of a descriptor that can cross is complete and well formed.
pub proof fn lemma_projection_well_formed(info: TypeDescriptor)
    requires
        info.can_cross(),
        info.extensions@.len() <= usize::MAX,
    ensures
        info.projection().well_formed(),
        info.projection().is_complete(),
        info.projection().extensions_length == info.extensions@.len(),
{
    crate::text::lemma_content_of_terminated(bytes_of(info.label@));
    crate::text::lemma_content_of_terminated(bytes_of(info.mime_type@));
    crate::text::lemma_content_of_terminated(bytes_of(info.group@));
    crate::text::lemma_content_of_terminated(bytes_of(info.description@));
    let array = info.projection().extensions->0;
    assert forall|i: int| 0 <= i < array.len() implies is_terminated(#[trigger] array[i]) by {
        assert(can_cross(info.extensions@[i]@));
        crate::text::lemma_content_of_terminated(bytes_of(info.extensions@[i]@));
    }
}

/// The record of a text type that has a label and a MIME type says so: its
/// flag is 1, and the buffers of label and MIME type hold those texts, each
/// at least one byte before the terminator, the first of them not zero.
pub proof fn lemma_text_projection(info: TypeDescriptor)
    requires
        info.can_cross(),
        info.is_text,
        info.label@.len() > 0,
        info.mime_type@.len() > 0,
    ensures
        info.projection().is_text == 1,
        info.projection().label matches Some(buffer) && buffer.len() >= 2 && buffer[0] != 0u8
            && content(buffer) == bytes_of(info.label@),
        info.projection().mime_type matches Some(buffer) && buffer.len() >= 2 && buffer[0] != 0u8
            && content(buffer) == bytes_of(info.mime_type@),
{
    crate::text::lemma_bytes_of_nonempty(info.label@);
    crate::text::lemma_bytes_of_nonempty(info.mime_type@);
    crate::text::lemma_content_of_terminated(bytes_of(info.label@));
    crate::text::lemma_content_of_terminated(bytes_of(info.mime_type@));
    assert(bytes_of(info.label@)[0] != 0u8);
    assert(bytes_of(info.mime_type@)[0] != 0u8);
}

/// Two descriptors flatten to the same record exactly if they say the same:
/// the record keeps every text, the order of the extensions, and the flag.
pub proof fn lemma_projection_faithful(a: TypeDescriptor, b: TypeDescriptor)
    requires
        a.extensions@.len() <= usize::MAX,
        b.extensions@.len() <= usize::MAX,
    ensures
        a.projection() == b.projection() <==> a.same_as(b),
{
    crate::text::lemma_terminated_injective(bytes_of(a.label@), bytes_of(b.label@));
    crate::text::lemma_terminated_injective(bytes_of(a.mime_type@), bytes_of(b.mime_type@));
    crate::text::lemma_terminated_injective(bytes_of(a.group@), bytes_of(b.group@));
    crate::text::lemma_terminated_injective(bytes_of(a.description@), bytes_of(b.description@));
    let pa = a.projection();
    let pb = b.projection();
    if pa == pb {
        assert(pa.extensions->0.len() == pb.extensions->0.len());
        assert forall|i: int| 0 <= i < a.extensions@.len() implies bytes_of(
            #[trigger] a.extensions@[i]@,
        ) == bytes_of(b.extensions@[i]@) by {
            assert(pa.extensions->0[i] == pb.extensions->0[i]);
            crate::text::lemma_terminated_injective(
                bytes_of(a.extensions@[i]@),
                bytes_of(b.extensions@[i]@),
            );
        }
    }
    if a.same_as(b) {
        assert(pa.extensions->0 =~= pb.extensions->0);
        assert(pa =~= pb);
    }
}

} // verus!

//! The order in which an envelope and all it owns are released, and the
//! account of what was released.

use vstd::prelude::*;
use crate::envelope::ResultWrap;
use crate::type_info::{TypeDescriptor, TypeInfo, TypeInfoView};

verus! {

/// One part that a release hands back to the allocator.
#[derive(Clone, Copy, Debug, PartialEq, Eq, Structural)]
pub enum Release {
    /// The buffer of one extension.
    ExtensionText,
    /// The array that held the extensions.
    ExtensionArray,
    /// The buffer of the label.
    Label,
    /// The buffer of the MIME type.
    MimeType,
    /// The buffer of the group.
    Group,
    /// The buffer of the description.
    Description,
    /// The flattened record itself.
    Projection,
    /// The engine's state behind a session handle.
    EngineState,
    /// The buffer of the diagnostic.
    Diagnostic,
    /// The envelope itself.
    Envelope,
}

/// One step if the part is there, none if it is absent.
pub open spec fn step_if(present: bool, part: Release) -> Seq<Release> {
    if present {
        seq![part]
    } else {
        Seq::empty()
    }
}

/// The steps that release the extensions: one for each buffer, then one for
/// the array. None where there is no array.
pub open spec fn extension_steps(extensions: Option<Seq<Seq<u8>>>) -> Seq<Release> {
    match extensions {
        Some(array) => Seq::new(array.len(), |i: int| Release::ExtensionText).push(
            Release::ExtensionArray,
        ),
        None => Seq::empty(),
    }
}

/// The steps that release a flattened record, innermost first: the
/// extensions, the four texts that are there, then the record.
pub open spec fn record_steps(info: TypeInfoView) -> Seq<Release> {
    extension_steps(info.extensions) + step_if(info.label is Some, Release::Label) + step_if(
        info.mime_type is Some,
        Release::MimeType,
    ) + step_if(info.group is Some, Release::Group) + step_if(
        info.description is Some,
        Release::Description,
    ) + seq![Release::Projection]
}

/// The steps that release the envelope of an identification: nothing for a
/// null envelope; else the record if there is one, the diagnostic if there is
/// one, and the envelope last.
pub open spec fn type_info_release_order(envelope: Option<ResultWrap<TypeInfo>>) -> Seq<Release> {
    match envelope {
        Some(e) => (match e.pointer {
            Some(info) => record_steps(info@),
            None => Seq::empty(),
        }) + step_if(e.error_message is Some, Release::Diagnostic) + seq![Release::Envelope],
        None => Seq::empty(),
    }
}

/// The steps that release the envelope of a session: nothing for a null
/// envelope; else the engine's state if there is one, the diagnostic if
/// there is one, and the envelope last.
pub open spec fn session_release_order(envelope: Option<ResultWrap<magika::Session>>) -> Seq<
    Release,
> {
    match envelope {
        Some(e) => step_if(e.pointer is Some, Release::EngineState) + step_if(
            e.error_message is Some,
            Release::Diagnostic,
        ) + seq![Release::Envelope],
        None => Seq::empty(),
    }
}

/// How often a part occurs among the steps.
pub open spec fn times_released(steps: Seq<Release>, part: Release) -> nat
    decreases steps.len(),
{
    if steps.len() == 0 {
        0
    } else {
        times_released(steps.drop_last(), part) + if steps.last() == part {
            1nat
        } else {
            0nat
        }
    }
}

/// How many parts of a kind a flattened record owns.
pub open spec fn owned_by_record(info: TypeInfoView, part: Release) -> nat {
    match part {
        Release::ExtensionText => match info.extensions {
            Some(array) => array.len(),
            None => 0,
        },
        Release::ExtensionArray => if info.extensions is Some {
            1
        } else {
            0
        },
        Release::Label => if info.label is Some {
            1
        } else {
            0
        },
        Release::MimeType => if info.mime_type is Some {
            1
        } else {
            0
        },
        Release::Group => if info.group is Some {
            1
        } else {
            0
        },
        Release::Description => if info.description is Some {
            1
        } else {
            0
        },
        Release::Projection => 1,
        _ => 0,
    }
}

/// How many parts of a kind the envelope of an identification owns, itself
/// included.
pub open spec fn owned_by_type_info_envelope(envelope: ResultWrap<TypeInfo>, part: Release) -> nat {
    (match envelope.pointer {
        Some(info) => owned_by_record(info@, part),
        None => 0,
    }) + (if part == Release::Diagnostic && envelope.error_message is Some {
        1nat
    } else {
        0nat
    }) + (if part == Release::Envelope {
        1nat
    } else {
        0nat
    })
}

/// How many parts of a kind the envelope of a session owns, itself included.
pub open spec fn owned_by_session_envelope(
    envelope: ResultWrap<magika::Session>,
    part: Release,
) -> nat {
    (if part == Release::EngineState && envelope.pointer is Some {
        1nat
    } else {
        0nat
    }) + (if part == Release::Diagnostic && envelope.error_message is Some {
        1nat
    } else {
        0nat
    }) + (if part == Release::Envelope {
        1nat
    } else {
        0nat
    })
}

/// Counting over two runs of steps, one after the other, adds up.
pub proof fn lemma_times_released_add(a: Seq<Release>, b: Seq<Release>, part: Release)
    ensures
        times_released(a + b, part) == times_released(a, part) + times_released(b, part),
    decreases b.len(),
{
    if b.len() == 0 {
        assert(a + b =~= a);
    } else {
        assert((a + b).drop_last() =~= a + b.drop_last());
        lemma_times_released_add(a, b.drop_last(), part);
    }
}

/// Among `n` steps that each release an extension buffer, that part occurs
/// `n` times and no other part occurs.
pub proof fn lemma_times_released_extension_texts(n: nat, part: Release)
    ensures
        times_released(Seq::new(n, |i: int| Release::ExtensionText), part) == if part
            == Release::ExtensionText {
            n
        } else {
            0
        },
    decreases n,
{
    let steps = Seq::new(n, |i: int| Release::ExtensionText);
    if n > 0 {
        assert(steps.drop_last() =~= Seq::new((n - 1) as nat, |i: int| Release::ExtensionText));
        lemma_times_released_extension_texts((n - 1) as nat, part);
    }
}

/// One step releases its part once and no other part.
pub proof fn lemma_times_released_step_if(present: bool, step: Release, part: Release)
    ensures
        times_released(step_if(present, step), part) == if present && step == part {
            1nat
        } else {
            0nat
        },
{
    if present {
        assert(seq![step].drop_last() =~= Seq::<Release>::empty());
        assert(times_released(seq![step].drop_last(), part) == 0);
    }
}

/// Releasing a flattened record releases each part that it owns exactly
/// once, and nothing that it does not own.
pub proof fn lemma_record_released_once(info: TypeInfoView, part: Release)
    ensures
        times_released(record_steps(info), part) == owned_by_record(info, part),
{
    let e = extension_steps(info.extensions);
    let l = step_if(info.label is Some, Release::Label);
    let m = step_if(info.mime_type is Some, Release::MimeType);
    let g = step_if(info.group is Some, Release::Group);
    let d = step_if(info.description is Some, Release::Description);
    let p = seq![Release::Projection];
    match info.extensions {
        Some(array) => {
            let texts = Seq::new(array.len(), |i: int| Release::ExtensionText);
            assert(e =~= texts + seq![Release::ExtensionArray]);
            lemma_times_released_add(texts, seq![Release::ExtensionArray], part);
            lemma_times_released_extension_texts(array.len(), part);
            lemma_times_released_step_if(true, Release::ExtensionArray, part);
        },
        None => {},
    }
    lemma_times_released_step_if(info.label is Some, Release::Label, part);
    lemma_times_released_step_if(info.mime_type is Some, Release::MimeType, part);
    lemma_times_released_step_if(info.group is Some, Release::Group, part);
    lemma_times_released_step_if(info.description is Some, Release::Description, part);
    lemma_times_released_step_if(true, Release::Projection, part);
    lemma_times_released_add(e, l, part);
    lemma_times_released_add(e + l, m, part);
    lemma_times_released_add(e + l + m, g, part);
    lemma_times_released_add(e + l + m + g, d, part);
    lemma_times_released_add(e + l + m + g + d, p, part);
}

/// Releasing the envelope of an identification once leaves nothing behind:
/// each buffer, the array, the record and the envelope are released exactly
/// once, and nothing is released that the envelope does not own.
pub proof fn lemma_type_info_release_complete(envelope: ResultWrap<TypeInfo>, part: Release)
    ensures
        times_released(type_info_release_order(Some(envelope)), part)
            == owned_by_type_info_envelope(envelope, part),
{
    let r = match envelope.pointer {
        Some(info) => record_steps(info@),
        None => Seq::empty(),
    };
    let d = step_if(envelope.error_message is Some, Release::Diagnostic);
    let e = seq![Release::Envelope];
    if let Some(info) = envelope.pointer {
        lemma_record_released_once(info@, part);
    }
    lemma_times_released_step_if(envelope.error_message is Some, Release::Diagnostic, part);
    lemma_times_released_step_if(true, Release::Envelope, part);
    lemma_times_released_add(r, d, part);
    lemma_times_released_add(r + d, e, part);
}

/// Releasing the envelope of a session once leaves nothing behind: the
/// engine's state, the diagnostic and the envelope are released exactly once
/// where they are there.
pub proof fn lemma_session_release_complete(envelope: ResultWrap<magika::Session>, part: Release)
    ensures
        times_released(session_release_order(Some(envelope)), part) == owned_by_session_envelope(
            envelope,
            part,
        ),
{
    let s = step_if(envelope.pointer is Some, Release::EngineState);
    let d = step_if(envelope.error_message is Some, Release::Diagnostic);
    let e = seq![Release::Envelope];
    lemma_times_released_step_if(envelope.pointer is Some, Release::EngineState, part);
    lemma_times_released_step_if(envelope.error_message is Some, Release::Diagnostic, part);
    lemma_times_released_step_if(true, Release::Envelope, part);
    lemma_times_released_add(s, d, part);
    lemma_times_released_add(s + d, e, part);
}

/// The envelope of a successful identification is released in one step for
/// each extension buffer and seven more: the array, label, MIME type, group,
/// description, the record, the envelope.
pub proof fn lemma_identified_release_order(info: TypeDescriptor, envelope: ResultWrap<TypeInfo>)
    requires
        envelope.error_message is None,
        envelope.pointer matches Some(record) && record@ == info.projection(),
    ensures
        type_info_release_order(Some(envelope)) == Seq::new(
            info.extensions@.len(),
            |i: int| Release::ExtensionText,
        ) + seq![
            Release::ExtensionArray,
            Release::Label,
            Release::MimeType,
            Release::Group,
            Release::Description,
            Release::Projection,
            Release::Envelope,
        ],
        type_info_release_order(Some(envelope)).len() == info.extensions@.len() + 7,
{
    let steps = type_info_release_order(Some(envelope));
    let expected = Seq::new(info.extensions@.len(), |i: int| Release::ExtensionText) + seq![
        Release::ExtensionArray,
        Release::Label,
        Release::MimeType,
        Release::Group,
        Release::Description,
        Release::Projection,
        Release::Envelope,
    ];
    assert(steps =~= expected);
}

/// Releases one buffer and notes the step.
pub(crate) fn release_text(buffer: Vec<u8>, part: Release, released: &mut Vec<Release>)
    ensures
        final(released)@ == old(released)@.push(part),
{
    released.push(part);
    // `buffer` ends here, which hands its memory back.
}

/// Releases a flattened record, innermost parts first: each extension
/// buffer, the array, the four texts, then the record. A part that is absent
/// is passed over.
pub(crate) fn release_record(info: TypeInfo, released: &mut Vec<Release>)
    ensures
        final(released)@ == old(released)@ + record_steps(info@),
{
    let ghost before = released@;
    let ghost view = info@;
    let TypeInfo {
        label,
        mime_type,
        group,
        description,
        extensions_length: _,
        extensions,
        is_text: _,
    } = info;
    if let Some(array) = extensions {
        let mut array = array;
        let ghost count = array@.len();
        while array.len() > 0
            invariant
                array@.len() <= count,
                released@ == before + Seq::new(
                    (count - array@.len()) as nat,
                    |i: int| Release::ExtensionText,
                ),
            decreases array@.len(),
        {
            match array.pop() {
                Some(buffer) => release_text(buffer, Release::ExtensionText, released),
                None => {},
            }
            assert(released@ =~= before + Seq::new(
                (count - array@.len()) as nat,
                |i: int| Release::ExtensionText,
            ));
        }
        released.push(Release::ExtensionArray);
    }
    assert(released@ =~= before + extension_steps(view.extensions));
    if let Some(buffer) = label {
        release_text(buffer, Release::Label, released);
    }
    if let Some(buffer) = mime_type {
        release_text(buffer, Release::MimeType, released);
    }
    if let Some(buffer) = group {
        release_text(buffer, Release::Group, released);
    }
    if let Some(buffer) = description {
        release_text(buffer, Release::Description, released);
    }
    released.push(Release::Projection);
    assert(released@ =~= before + record_steps(view));
}

} // verus!

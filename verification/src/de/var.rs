//! Variant access: a tagged choice resolved by the current element's or
//! text's name, and the decoding of its payload.

use crate::adapter::{
    chars_of, end_name_of, event_kind, start_attrs_of, start_name_of, GenericEventReader,
    GenericXmlEvent,
};
use crate::de::Deserializer;
use crate::error::{Error, EventKind};
use vstd::prelude::*;

verus! {

/// Selects the variant of a tagged choice.
pub struct EnumAccess {}

impl EnumAccess {
    /// Builds variant selection; the decoding cursor is borrowed per call.
    pub fn new() -> EnumAccess {
        EnumAccess {}
    }

    /// Resolves the variant name from the upcoming event: bare text names
    /// the variant directly, a start tag names it by its tag name.  The
    /// pending-inline signal is set afterwards so that the payload decode
    /// knows to expect a nested element where relevant.
    pub fn variant_name<E: GenericEventReader>(&self, de: &mut Deserializer<E>) -> (r: Result<
        String,
        Error,
    >)
        ensures
            final(de).remaining() == old(de).remaining(),
            final(de).depth() == old(de).depth(),
            final(de).infallible() == old(de).infallible(),
            r is Ok ==> final(de).pending(),
            r is Err ==> final(de).pending() == old(de).pending(),
            r matches Ok(s) ==> old(de).remaining().len() > 0 && ({
                let e = old(de).remaining()[0];
                (e is Characters && s@ == chars_of(e)) || (e is StartElement && s@
                    == start_name_of(e))
            }),
            old(de).infallible() && old(de).remaining().len() > 0 ==> (r is Ok <==> (old(
                de,
            ).remaining()[0] is Characters || old(de).remaining()[0] is StartElement)),
            old(de).infallible() && old(de).remaining().len() > 0 && !(old(
                de,
            ).remaining()[0] is Characters) && !(old(de).remaining()[0] is StartElement) ==> (
            r matches Err(e) && e matches Error::UnexpectedToken { required, observed } && required
                == EventKind::StartElement && observed == event_kind(old(de).remaining()[0])),
    {
        let name: String = match de.peek()? {
            GenericXmlEvent::Characters(text) => text.clone(),
            GenericXmlEvent::StartElement { name, .. } => name.local_name.clone(),
            other => {
                return Err(
                    Error::UnexpectedToken {
                        required: EventKind::StartElement,
                        observed: other.kind(),
                    },
                );
            },
        };
        de.set_map_value();
        Ok(name)
    }
}

/// Decodes the payload of the selected variant.
pub struct VariantAccess {}

impl VariantAccess {
    /// Builds payload access; the decoding cursor is borrowed per call.
    pub fn new() -> VariantAccess {
        VariantAccess {}
    }

    /// Decodes an empty payload.  A bare-text variant needs no further
    /// consumption beyond its text; an element variant must carry no
    /// attributes and close immediately.  The caller has already resolved
    /// the variant from this position, so the upcoming event is text or a
    /// start tag.
    pub fn unit_variant<E: GenericEventReader>(&self, de: &mut Deserializer<E>) -> (r: Result<
        (),
        Error,
    >)
        requires
            old(de).remaining().len() > 0 ==> (old(de).remaining()[0] is StartElement || old(
                de,
            ).remaining()[0] is Characters),
        ensures
            !final(de).pending(),
            final(de).infallible() == old(de).infallible(),
            r is Ok ==> final(de).depth() == old(de).depth(),
            old(de).infallible() ==> ({
                let evs = old(de).remaining();
                &&& (r is Ok <==> evs.len() > 0 && (evs[0] is Characters || (evs[0] is StartElement
                    && start_attrs_of(evs[0]).len() == 0 && old(de).depth() < u64::MAX && evs.len()
                    >= 2 && evs[1] is EndElement && end_name_of(evs[1]) == start_name_of(evs[0]))))
                &&& (r is Ok && evs[0] is Characters ==> final(de).remaining() == evs.skip(1))
                &&& (r is Ok && evs[0] is StartElement ==> final(de).remaining() == evs.skip(2))
                &&& (evs.len() > 0 && evs[0] is StartElement && start_attrs_of(evs[0]).len() > 0
                    && old(de).depth() < u64::MAX ==> (r matches Err(e)
                    && e matches Error::InvalidPayload { expected_attributes, found_attributes }
                    && expected_attributes == 0usize && found_attributes as int == start_attrs_of(
                    evs[0],
                ).len()))
            }),
    {
        de.unset_map_value();
        match de.next()? {
            GenericXmlEvent::StartElement { name, attributes } => {
                if attributes.len() == 0 {
                    let r = de.expect_end_element(name);
                    proof {
                        if old(de).remaining().len() >= 2 {
                            assert(old(de).remaining().skip(1).skip(1) =~= old(
                                de,
                            ).remaining().skip(2));
                        }
                    }
                    r
                } else {
                    Err(
                        Error::InvalidPayload {
                            expected_attributes: 0,
                            found_attributes: attributes.len(),
                        },
                    )
                }
            },
            GenericXmlEvent::Characters(_) => Ok(()),
            _ => unreached(),
        }
    }
}

} // verus!


//! The body-shaping guarantees, stated on their own: an optional field
//! left unset never appears in the serialized body; a field that was
//! set — to a falsy value included — appears with exactly the value it
//! was given; an identity field never appears at all.

use vstd::prelude::*;
use crate::body::FieldView;
use crate::requests::ConfigureTLSCertificateMethodRequestBuilder;

verus! {

/// Each optional configure field stands in the serialized body exactly
/// when it was set, with the value it was given, and the mount — an
/// identity field — never stands in it.
pub proof fn lemma_configure_body_fields(b: ConfigureTLSCertificateMethodRequestBuilder)
    ensures
        b.payload_view().contains_key("disable_binding"@) <==> b.disable_binding is Some,
        b.disable_binding matches Some(v) ==> b.payload_view()["disable_binding"@]
            == FieldView::Flag(v),
        b.payload_view().contains_key("enable_identity_alias_metadata"@)
            <==> b.enable_identity_alias_metadata is Some,
        b.enable_identity_alias_metadata matches Some(v) ==> b.payload_view().index(
            "enable_identity_alias_metadata"@,
        ) == FieldView::Flag(v),
        b.payload_view().contains_key("ocsp_cache_size"@) <==> b.ocsp_cache_size is Some,
        b.ocsp_cache_size matches Some(v) ==> b.payload_view()["ocsp_cache_size"@]
            == FieldView::Uint(v),
        !b.payload_view().contains_key("mount"@),
{
    reveal_strlit("disable_binding");
    reveal_strlit("enable_identity_alias_metadata");
    reveal_strlit("ocsp_cache_size");
    reveal_strlit("mount");
    assert("disable_binding"@[0] != "ocsp_cache_size"@[0]);
    assert("disable_binding"@ != "ocsp_cache_size"@);
    assert("mount"@.len() != "disable_binding"@.len());
    assert("mount"@ != "disable_binding"@);
    assert("mount"@.len() != "enable_identity_alias_metadata"@.len());
    assert("mount"@ != "enable_identity_alias_metadata"@);
    assert("mount"@.len() != "ocsp_cache_size"@.len());
    assert("mount"@ != "ocsp_cache_size"@);
}

} // verus!

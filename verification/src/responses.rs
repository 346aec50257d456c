//! Typed response records, and the verified decoders that read them out
//! of a parsed JSON document.

use vstd::prelude::*;
use crate::json::{get_entry, lookup, Json};

verus! {

/// The configuration of one certificate role, as the service reports it.
pub struct ReadCACertificateRoleResponse {
    pub certificate: String,
    pub display_name: String,
    pub policies: String,
    pub allowed_names: String,
    pub required_extensions: String,
    pub ttl: u32,
    pub max_ttl: u32,
    pub period: u32,
}

/// The mathematical shape of a [`ReadCACertificateRoleResponse`].
pub struct RoleRecordView {
    pub certificate: Seq<char>,
    pub display_name: Seq<char>,
    pub policies: Seq<char>,
    pub allowed_names: Seq<char>,
    pub required_extensions: Seq<char>,
    pub ttl: u32,
    pub max_ttl: u32,
    pub period: u32,
}

impl View for ReadCACertificateRoleResponse {
    type V = RoleRecordView;

    open spec fn view(&self) -> RoleRecordView {
        RoleRecordView {
            certificate: self.certificate@,
            display_name: self.display_name@,
            policies: self.policies@,
            allowed_names: self.allowed_names@,
            required_extensions: self.required_extensions@,
            ttl: self.ttl,
            max_ttl: self.max_ttl,
            period: self.period,
        }
    }
}

/// The serial numbers a revocation list holds.  The service reports them
/// as the keys of an object; they are kept here in that order.
pub struct ReadCRLResponse {
    pub serials: Vec<String>,
}

impl View for ReadCRLResponse {
    type V = Seq<Seq<char>>;

    open spec fn view(&self) -> Seq<Seq<char>> {
        self.serials.deep_view()
    }
}

/// Session credential material returned by a successful login.
pub struct AuthInfo {
    pub client_token: String,
    pub accessor: String,
    pub policies: Vec<String>,
    pub lease_duration: u64,
    pub renewable: bool,
}

/// The mathematical shape of an [`AuthInfo`].
pub struct AuthInfoView {
    pub client_token: Seq<char>,
    pub accessor: Seq<char>,
    pub policies: Seq<Seq<char>>,
    pub lease_duration: u64,
    pub renewable: bool,
}

impl View for AuthInfo {
    type V = AuthInfoView;

    open spec fn view(&self) -> AuthInfoView {
        AuthInfoView {
            client_token: self.client_token@,
            accessor: self.accessor@,
            policies: self.policies.deep_view(),
            lease_duration: self.lease_duration,
            renewable: self.renewable,
        }
    }
}

/// The text bound to key `k`, when the entry exists and is textual.
pub open spec fn text_at(es: Seq<(String, Json)>, k: Seq<char>) -> Option<Seq<char>> {
    match lookup(es, k) {
        Some(Json::Text(s)) => Some(s@),
        _ => None,
    }
}

/// The integer bound to key `k`, when the entry exists, is numeric and
/// fits the field's width.
pub open spec fn u32_at(es: Seq<(String, Json)>, k: Seq<char>) -> Option<u32> {
    match lookup(es, k) {
        Some(Json::UInt(u)) => if u <= u32::MAX as u64 {
            Some(u as u32)
        } else {
            None
        },
        _ => None,
    }
}

/// The strings of an array, when every element is textual.
pub open spec fn texts_of(items: Seq<Json>) -> Option<Seq<Seq<char>>> {
    if forall|i: int| 0 <= i < items.len() ==> items[i] is Text {
        Some(Seq::new(items.len(), |i: int| items[i]->Text_0@))
    } else {
        None
    }
}

/// The role record a JSON document describes, if it has the expected
/// shape: an object with the five textual and three numeric fields.
pub open spec fn role_view_of(j: Json) -> Option<RoleRecordView> {
    match j {
        Json::Obj(es) => if text_at(es@, "certificate"@) is Some && text_at(es@, "display_name"@)
            is Some && text_at(es@, "policies"@) is Some && text_at(es@, "allowed_names"@) is Some
            && text_at(es@, "required_extensions"@) is Some && u32_at(es@, "ttl"@) is Some && u32_at(
            es@,
            "max_ttl"@,
        ) is Some && u32_at(es@, "period"@) is Some {
            Some(
                RoleRecordView {
                    certificate: text_at(es@, "certificate"@)->0,
                    display_name: text_at(es@, "display_name"@)->0,
                    policies: text_at(es@, "policies"@)->0,
                    allowed_names: text_at(es@, "allowed_names"@)->0,
                    required_extensions: text_at(es@, "required_extensions"@)->0,
                    ttl: u32_at(es@, "ttl"@)->0,
                    max_ttl: u32_at(es@, "max_ttl"@)->0,
                    period: u32_at(es@, "period"@)->0,
                },
            )
        } else {
            None
        },
        _ => None,
    }
}

/// The serial numbers a JSON document describes, if it has the expected
/// shape: an object whose `serials` entry is itself an object; its keys
/// are the serial numbers.
pub open spec fn crl_view_of(j: Json) -> Option<Seq<Seq<char>>> {
    match j {
        Json::Obj(es) => match lookup(es@, "serials"@) {
            Some(Json::Obj(ses)) => Some(Seq::new(ses@.len(), |i: int| ses@[i].0@)),
            _ => None,
        },
        _ => None,
    }
}

/// The name list a JSON document describes, if it has the expected
/// shape: an object whose `keys` entry is an array of strings.
pub open spec fn keys_view_of(j: Json) -> Option<Seq<Seq<char>>> {
    match j {
        Json::Obj(es) => match lookup(es@, "keys"@) {
            Some(Json::Arr(items)) => texts_of(items@),
            _ => None,
        },
        _ => None,
    }
}

/// The accessor a credential object carries: absent means empty.
pub open spec fn accessor_of(aes: Seq<(String, Json)>) -> Option<Seq<char>> {
    match lookup(aes, "accessor"@) {
        None => Some(Seq::empty()),
        Some(Json::Text(s)) => Some(s@),
        _ => None,
    }
}

/// The policy list a credential object carries: absent means none.
pub open spec fn policies_of(aes: Seq<(String, Json)>) -> Option<Seq<Seq<char>>> {
    match lookup(aes, "policies"@) {
        None => Some(Seq::empty()),
        Some(Json::Arr(items)) => texts_of(items@),
        _ => None,
    }
}

/// The lease duration a credential object carries: absent means zero.
pub open spec fn lease_of(aes: Seq<(String, Json)>) -> Option<u64> {
    match lookup(aes, "lease_duration"@) {
        None => Some(0),
        Some(Json::UInt(u)) => Some(u),
        _ => None,
    }
}

/// The renewability a credential object carries: absent means not.
pub open spec fn renewable_of(aes: Seq<(String, Json)>) -> Option<bool> {
    match lookup(aes, "renewable"@) {
        None => Some(false),
        Some(Json::Bool(b)) => Some(b),
        _ => None,
    }
}

/// The credential material a credential object carries.  The token is
/// the material itself: it must be present, textual and non-empty; the
/// other fields default when absent.
pub open spec fn auth_fields_view(aes: Seq<(String, Json)>) -> Option<AuthInfoView> {
    match lookup(aes, "client_token"@) {
        Some(Json::Text(tok)) => if tok@.len() == 0 {
            None
        } else if accessor_of(aes) is Some && policies_of(aes) is Some && lease_of(aes) is Some
            && renewable_of(aes) is Some {
            Some(
                AuthInfoView {
                    client_token: tok@,
                    accessor: accessor_of(aes)->0,
                    policies: policies_of(aes)->0,
                    lease_duration: lease_of(aes)->0,
                    renewable: renewable_of(aes)->0,
                },
            )
        } else {
            None
        },
        _ => None,
    }
}

/// The credential material a login response describes: an object whose
/// `auth` entry holds the credential object.
pub open spec fn auth_view_of(j: Json) -> Option<AuthInfoView> {
    match j {
        Json::Obj(es) => match lookup(es@, "auth"@) {
            Some(Json::Obj(aes)) => auth_fields_view(aes@),
            _ => None,
        },
        _ => None,
    }
}

/// Reads a string array out of a JSON array, refusing any non-string
/// element.
fn texts_from(items: &Vec<Json>) -> (r: Option<Vec<String>>)
    ensures
        match r {
            Some(v) => texts_of(items@) == Some(v.deep_view()),
            None => texts_of(items@) is None,
        },
{
    let mut out: Vec<String> = Vec::new();
    let n = items.len();
    for i in 0..n
        invariant
            n == items@.len(),
            out@.len() == i,
            forall|k: int| 0 <= k < i ==> items@[k] is Text && out@[k]@ == items@[k]->Text_0@,
    {
        match &items[i] {
            Json::Text(s) => out.push(s.clone()),
            _ => {
                return None;
            },
        }
    }
    proof {
        assert(texts_of(items@) matches Some(v) && v =~= out.deep_view());
    }
    Some(out)
}

/// Copies the keys of an object's entry list, in order.
fn entry_keys(es: &Vec<(String, Json)>) -> (r: Vec<String>)
    ensures
        r.deep_view() == Seq::new(es@.len(), |i: int| es@[i].0@),
{
    let mut out: Vec<String> = Vec::new();
    let n = es.len();
    for i in 0..n
        invariant
            n == es@.len(),
            out@.len() == i,
            forall|k: int| 0 <= k < i ==> out@[k]@ == es@[k].0@,
    {
        out.push(es[i].0.clone());
    }
    proof {
        assert(out.deep_view() =~= Seq::new(es@.len(), |i: int| es@[i].0@));
    }
    out
}

/// Decodes a role record from a parsed document, exactly when the
/// document has the expected shape.
pub fn role_from_json(j: &Json) -> (r: Option<ReadCACertificateRoleResponse>)
    ensures
        match r {
            Some(rec) => role_view_of(*j) == Some(rec@),
            None => role_view_of(*j) is None,
        },
{
    let es = match j {
        Json::Obj(es) => es,
        _ => {
            return None;
        },
    };
    let certificate = match get_entry(es, "certificate") {
        Some(Json::Text(s)) => s.clone(),
        _ => {
            return None;
        },
    };
    let display_name = match get_entry(es, "display_name") {
        Some(Json::Text(s)) => s.clone(),
        _ => {
            return None;
        },
    };
    let policies = match get_entry(es, "policies") {
        Some(Json::Text(s)) => s.clone(),
        _ => {
            return None;
        },
    };
    let allowed_names = match get_entry(es, "allowed_names") {
        Some(Json::Text(s)) => s.clone(),
        _ => {
            return None;
        },
    };
    let required_extensions = match get_entry(es, "required_extensions") {
        Some(Json::Text(s)) => s.clone(),
        _ => {
            return None;
        },
    };
    let ttl = match get_entry(es, "ttl") {
        Some(Json::UInt(u)) => if *u <= u32::MAX as u64 {
            *u as u32
        } else {
            return None;
        },
        _ => {
            return None;
        },
    };
    let max_ttl = match get_entry(es, "max_ttl") {
        Some(Json::UInt(u)) => if *u <= u32::MAX as u64 {
            *u as u32
        } else {
            return None;
        },
        _ => {
            return None;
        },
    };
    let period = match get_entry(es, "period") {
        Some(Json::UInt(u)) => if *u <= u32::MAX as u64 {
            *u as u32
        } else {
            return None;
        },
        _ => {
            return None;
        },
    };
    Some(
        ReadCACertificateRoleResponse {
            certificate,
            display_name,
            policies,
            allowed_names,
            required_extensions,
            ttl,
            max_ttl,
            period,
        },
    )
}

/// Decodes a revocation list from a parsed document, exactly when the
/// document has the expected shape.
pub fn crl_from_json(j: &Json) -> (r: Option<ReadCRLResponse>)
    ensures
        match r {
            Some(rec) => crl_view_of(*j) == Some(rec@),
            None => crl_view_of(*j) is None,
        },
{
    let es = match j {
        Json::Obj(es) => es,
        _ => {
            return None;
        },
    };
    match get_entry(es, "serials") {
        Some(Json::Obj(ses)) => Some(ReadCRLResponse { serials: entry_keys(ses) }),
        _ => None,
    }
}

/// Decodes a name list from a parsed document, exactly when the
/// document has the expected shape.
pub fn keys_from_json(j: &Json) -> (r: Option<Vec<String>>)
    ensures
        match r {
            Some(v) => keys_view_of(*j) == Some(v.deep_view()),
            None => keys_view_of(*j) is None,
        },
{
    let es = match j {
        Json::Obj(es) => es,
        _ => {
            return None;
        },
    };
    match get_entry(es, "keys") {
        Some(Json::Arr(items)) => texts_from(items),
        _ => None,
    }
}

/// Decodes credential material from a parsed document, exactly when the
/// document has the expected shape and actually carries a token.
pub fn auth_from_json(j: &Json) -> (r: Option<AuthInfo>)
    ensures
        match r {
            Some(a) => auth_view_of(*j) == Some(a@),
            None => auth_view_of(*j) is None,
        },
{
    let es = match j {
        Json::Obj(es) => es,
        _ => {
            return None;
        },
    };
    let aes = match get_entry(es, "auth") {
        Some(Json::Obj(aes)) => aes,
        _ => {
            return None;
        },
    };
    let client_token = match get_entry(aes, "client_token") {
        Some(Json::Text(s)) => if s.as_str().is_empty() {
            return None;
        } else {
            s.clone()
        },
        _ => {
            return None;
        },
    };
    let accessor = match get_entry(aes, "accessor") {
        None => String::new(),
        Some(Json::Text(s)) => s.clone(),
        _ => {
            return None;
        },
    };
    let policies = match get_entry(aes, "policies") {
        None => Vec::new(),
        Some(Json::Arr(items)) => match texts_from(items) {
            Some(v) => v,
            None => {
                return None;
            },
        },
        _ => {
            return None;
        },
    };
    let lease_duration = match get_entry(aes, "lease_duration") {
        None => 0,
        Some(Json::UInt(u)) => *u,
        _ => {
            return None;
        },
    };
    let renewable = match get_entry(aes, "renewable") {
        None => false,
        Some(Json::Bool(b)) => *b,
        _ => {
            return None;
        },
    };
    proof {
        assert(policies_of(aes@) == Some(policies.deep_view()) || (policies_of(aes@) is Some
            && policies.deep_view() =~= Seq::<Seq<char>>::empty() && policies_of(aes@)->0
            =~= Seq::<Seq<char>>::empty()));
    }
    Some(AuthInfo { client_token, accessor, policies, lease_duration, renewable })
}

} // verus!

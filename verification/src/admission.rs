//! The slice of the admission-review wire types that the core reads and
//! writes, held as plain values.

use vstd::prelude::*;

verus! {

/// Group/version/kind triple of the object under review.
#[derive(Clone, Debug)]
pub struct GroupVersionKind {
    pub group: String,
    pub version: String,
    pub kind: String,
}

#[verifier::ext_equal]
pub struct GroupVersionKindView {
    pub group: Seq<char>,
    pub version: Seq<char>,
    pub kind: Seq<char>,
}

impl View for GroupVersionKind {
    type V = GroupVersionKindView;

    open spec fn view(&self) -> GroupVersionKindView {
        GroupVersionKindView { group: self.group@, version: self.version@, kind: self.kind@ }
    }
}

impl DeepView for GroupVersionKind {
    type V = GroupVersionKindView;

    open spec fn deep_view(&self) -> GroupVersionKindView {
        self.view()
    }
}

impl Default for GroupVersionKind {
    fn default() -> (r: GroupVersionKind)
        ensures
            r@ == (GroupVersionKindView {
                group: Seq::<char>::empty(),
                version: Seq::<char>::empty(),
                kind: Seq::<char>::empty(),
            }),
    {
        GroupVersionKind { group: String::new(), version: String::new(), kind: String::new() }
    }
}

/// Group/version/resource triple of the object under review.
#[derive(Clone, Debug)]
pub struct GroupVersionResource {
    pub group: String,
    pub version: String,
    pub resource: String,
}

#[verifier::ext_equal]
pub struct GroupVersionResourceView {
    pub group: Seq<char>,
    pub version: Seq<char>,
    pub resource: Seq<char>,
}

impl View for GroupVersionResource {
    type V = GroupVersionResourceView;

    open spec fn view(&self) -> GroupVersionResourceView {
        GroupVersionResourceView {
            group: self.group@,
            version: self.version@,
            resource: self.resource@,
        }
    }
}

/// The fields of an admission request that the core reads. The object payload
/// itself is opaque JSON and never inspected here; the surrounding process
/// keeps it beside these fields.
#[derive(Clone, Debug)]
pub struct AdmissionRequest {
    pub uid: String,
    pub kind: GroupVersionKind,
    pub resource: GroupVersionResource,
    pub sub_resource: Option<String>,
    pub name: Option<String>,
    pub namespace: Option<String>,
    pub operation: String,
    pub request_kind: Option<GroupVersionKind>,
}

#[verifier::ext_equal]
pub struct AdmissionRequestView {
    pub uid: Seq<char>,
    pub kind: GroupVersionKindView,
    pub resource: GroupVersionResourceView,
    pub sub_resource: Option<Seq<char>>,
    pub name: Option<Seq<char>>,
    pub namespace: Option<Seq<char>>,
    pub operation: Seq<char>,
    pub request_kind: Option<GroupVersionKindView>,
}

impl View for AdmissionRequest {
    type V = AdmissionRequestView;

    open spec fn view(&self) -> AdmissionRequestView {
        AdmissionRequestView {
            uid: self.uid@,
            kind: self.kind@,
            resource: self.resource@,
            sub_resource: self.sub_resource.deep_view(),
            name: self.name.deep_view(),
            namespace: self.namespace.deep_view(),
            operation: self.operation@,
            request_kind: self.request_kind.deep_view(),
        }
    }
}

/// The `status` member of an admission response.
#[derive(Clone, Debug)]
pub struct AdmissionResponseStatus {
    pub message: Option<String>,
    pub code: Option<u16>,
}

#[verifier::ext_equal]
pub struct AdmissionResponseStatusView {
    pub message: Option<Seq<char>>,
    pub code: Option<u16>,
}

impl View for AdmissionResponseStatus {
    type V = AdmissionResponseStatusView;

    open spec fn view(&self) -> AdmissionResponseStatusView {
        AdmissionResponseStatusView { message: self.message.deep_view(), code: self.code }
    }
}

impl DeepView for AdmissionResponseStatus {
    type V = AdmissionResponseStatusView;

    open spec fn deep_view(&self) -> AdmissionResponseStatusView {
        self.view()
    }
}

impl Default for AdmissionResponseStatus {
    fn default() -> (r: AdmissionResponseStatus)
        ensures
            r@ == (AdmissionResponseStatusView { message: None, code: None }),
    {
        AdmissionResponseStatus { message: None, code: None }
    }
}

impl PartialEq for AdmissionResponseStatus {
    fn eq(&self, other: &AdmissionResponseStatus) -> (r: bool) {
        let message_eq = option_string_eq(&self.message, &other.message);
        let code_eq = option_u16_eq(&self.code, &other.code);
        proof {
            if message_eq && code_eq {
                assert(self@ =~= other@);
            }
        }
        message_eq && code_eq
    }
}

impl vstd::std_specs::cmp::PartialEqSpecImpl for AdmissionResponseStatus {
    open spec fn obeys_eq_spec() -> bool {
        true
    }

    open spec fn eq_spec(&self, other: &AdmissionResponseStatus) -> bool {
        self@ == other@
    }
}

/// The admission response the webhook returns: the verdict, an optional
/// JSON patch (base64), and an optional status.
#[derive(Clone, Debug)]
pub struct AdmissionResponse {
    pub uid: String,
    pub allowed: bool,
    pub patch: Option<String>,
    pub patch_type: Option<String>,
    pub status: Option<AdmissionResponseStatus>,
}

#[verifier::ext_equal]
pub struct AdmissionResponseView {
    pub uid: Seq<char>,
    pub allowed: bool,
    pub patch: Option<Seq<char>>,
    pub patch_type: Option<Seq<char>>,
    pub status: Option<AdmissionResponseStatusView>,
}

impl View for AdmissionResponse {
    type V = AdmissionResponseView;

    open spec fn view(&self) -> AdmissionResponseView {
        AdmissionResponseView {
            uid: self.uid@,
            allowed: self.allowed,
            patch: self.patch.deep_view(),
            patch_type: self.patch_type.deep_view(),
            status: self.status.deep_view(),
        }
    }
}

impl Default for AdmissionResponse {
    fn default() -> (r: AdmissionResponse)
        ensures
            r@ == (AdmissionResponseView {
                uid: Seq::<char>::empty(),
                allowed: false,
                patch: None,
                patch_type: None,
                status: None,
            }),
    {
        AdmissionResponse {
            uid: String::new(),
            allowed: false,
            patch: None,
            patch_type: None,
            status: None,
        }
    }
}

impl PartialEq for AdmissionResponse {
    fn eq(&self, other: &AdmissionResponse) -> (r: bool) {
        let uid_eq = self.uid == other.uid;
        let allowed_eq = self.allowed == other.allowed;
        let patch_eq = option_string_eq(&self.patch, &other.patch);
        let patch_type_eq = option_string_eq(&self.patch_type, &other.patch_type);
        let status_eq = option_status_eq(&self.status, &other.status);
        proof {
            if uid_eq && allowed_eq && patch_eq && patch_type_eq && status_eq {
                assert(self@ =~= other@);
            }
        }
        uid_eq && allowed_eq && patch_eq && patch_type_eq && status_eq
    }
}

impl vstd::std_specs::cmp::PartialEqSpecImpl for AdmissionResponse {
    open spec fn obeys_eq_spec() -> bool {
        true
    }

    open spec fn eq_spec(&self, other: &AdmissionResponse) -> bool {
        self@ == other@
    }
}

impl AdmissionResponse {
    /// A synthetic rejection: not allowed, no patch, and a status that
    /// carries the given message and code.
    pub fn reject(uid: String, message: String, code: u16) -> (r: AdmissionResponse)
        ensures
            r@ == (AdmissionResponseView {
                uid: uid@,
                allowed: false,
                patch: None,
                patch_type: None,
                status: Some(AdmissionResponseStatusView {
                    message: Some(message@),
                    code: Some(code),
                }),
            }),
    {
        AdmissionResponse {
            uid,
            allowed: false,
            patch: None,
            patch_type: None,
            status: Some(AdmissionResponseStatus { message: Some(message), code: Some(code) }),
        }
    }
}

/// Equality of optional strings, stated over their character sequences.
pub fn option_string_eq(a: &Option<String>, b: &Option<String>) -> (r: bool)
    ensures
        r == (a.deep_view() == b.deep_view()),
{
    match (a, b) {
        (Some(x), Some(y)) => *x == *y,
        (None, None) => true,
        _ => false,
    }
}

/// Equality of optional codes.
pub fn option_u16_eq(a: &Option<u16>, b: &Option<u16>) -> (r: bool)
    ensures
        r == (*a == *b),
{
    match (a, b) {
        (Some(x), Some(y)) => x == y,
        (None, None) => true,
        _ => false,
    }
}

/// Equality of optional statuses, stated over their views.
pub fn option_status_eq(
    a: &Option<AdmissionResponseStatus>,
    b: &Option<AdmissionResponseStatus>,
) -> (r: bool)
    ensures
        r == (a.deep_view() == b.deep_view()),
{
    match (a, b) {
        (Some(x), Some(y)) => x == y,
        (None, None) => true,
        _ => false,
    }
}

} // verus!

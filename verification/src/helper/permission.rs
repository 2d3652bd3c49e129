use napi_ohos::Either;
use vstd::prelude::*;
use vstd::std_specs::convert::FromSpecImpl;

verus! {

/// One permission, or several to be asked for together.
#[derive(Debug, PartialEq, Eq)]
pub enum PermissionRequest {
    Single(String),
    Multiple(Vec<String>),
}

/// A permission and the code the system answered for it.
#[derive(Debug, PartialEq, Eq)]
pub struct PermissionRequestCode {
    pub permission: String,
    pub code: i32,
}

/// Why the answer to a permission request could not be read.
#[derive(Debug, Clone, Copy, PartialEq, Eq, Structural)]
pub enum PermissionError {
    /// The host answered with `got` codes for `expected` permissions.
    ArityMismatch { expected: usize, got: usize },
}

/// The codes that the host answered, in its order.
pub open spec fn spec_codes(output: Either<i32, Vec<i32>>) -> Seq<i32> {
    match output {
        Either::A(code) => seq![code],
        Either::B(codes) => codes@,
    }
}

/// Each permission with the code at the same place.
pub open spec fn spec_pairs(permissions: Seq<Seq<char>>, codes: Seq<i32>) -> Seq<
    (Seq<char>, i32),
>
    recommends
        permissions.len() == codes.len(),
{
    Seq::new(permissions.len(), |i: int| (permissions[i], codes[i]))
}

/// What a list of answered permissions says.
pub open spec fn spec_answered(answered: Seq<PermissionRequestCode>) -> Seq<(Seq<char>, i32)> {
    Seq::new(answered.len(), |i: int| (answered[i].permission@, answered[i].code))
}

impl PermissionRequest {
    /// The names asked for, in the order they were given.
    pub open spec fn spec_permissions(self) -> Seq<Seq<char>> {
        match self {
            PermissionRequest::Single(permission) => seq![permission@],
            PermissionRequest::Multiple(permissions) => permissions.deep_view(),
        }
    }

    /// The names asked for, in the order they were given.
    pub fn permissions(&self) -> (r: Vec<String>)
        ensures
            r.deep_view() == self.spec_permissions(),
    {
        match self {
            PermissionRequest::Single(permission) => {
                let mut names: Vec<String> = Vec::new();
                names.push(permission.clone());
                assert(names.deep_view() =~= seq![permission@]);
                names
            },
            PermissionRequest::Multiple(permissions) => {
                let names = permissions.clone();
                assert(names.deep_view() =~= permissions.deep_view());
                names
            },
        }
    }

    /// The request in the form the host takes: one name, or a list.
    pub fn into_input(self) -> (r: Either<String, Vec<String>>)
        ensures
            r == match self {
                PermissionRequest::Single(permission) => Either::<String, Vec<String>>::A(
                    permission,
                ),
                PermissionRequest::Multiple(permissions) => Either::<String, Vec<String>>::B(
                    permissions,
                ),
            },
    {
        match self {
            PermissionRequest::Single(permission) => Either::A(permission),
            PermissionRequest::Multiple(permissions) => Either::B(permissions),
        }
    }

    /// Reads the host's answer to this request: each permission with its
    /// code, in the order asked. The host answers one code or a list; the
    /// answer must hold as many codes as permissions were asked for.
    pub fn answer(&self, output: Either<i32, Vec<i32>>) -> (r: Result<
        Vec<PermissionRequestCode>,
        PermissionError,
    >)
        ensures
            self.spec_permissions().len() == spec_codes(output).len() ==> r is Ok
                && spec_answered(r->Ok_0@) == spec_pairs(
                self.spec_permissions(),
                spec_codes(output),
            ),
            self.spec_permissions().len() != spec_codes(output).len() ==> r == Err::<
                Vec<PermissionRequestCode>,
                PermissionError,
            >(
                PermissionError::ArityMismatch {
                    expected: self.spec_permissions().len() as usize,
                    got: spec_codes(output).len() as usize,
                },
            ),
    {
        let names = self.permissions();
        let codes = output_codes(output);
        if names.len() != codes.len() {
            return Err(PermissionError::ArityMismatch { expected: names.len(), got: codes.len() });
        }
        let mut names = names;
        let ghost asked = names.deep_view();
        let mut answered: Vec<PermissionRequestCode> = Vec::new();
        let mut i: usize = 0;
        while i < codes.len()
            invariant
                i <= codes.len(),
                names.len() == codes.len(),
                names.deep_view() == asked,
                answered.len() == i,
                forall|j: int|
                    0 <= j < i ==> (#[trigger] answered[j]).permission@ == asked[j]
                        && answered[j].code == codes[j],
            decreases codes.len() - i,
        {
            let permission = names[i].clone();
            assert(permission@ == names.deep_view()[i as int]);
            answered.push(PermissionRequestCode { permission, code: codes[i] });
            i += 1;
        }
        assert(spec_answered(answered@) =~= spec_pairs(asked, codes@));
        Ok(answered)
    }
}

impl PermissionRequest {
    /// A request for the one permission with this name.
    pub fn single(name: &str) -> (r: PermissionRequest)
        ensures
            r matches PermissionRequest::Single(permission) && permission@ == name@,
    {
        PermissionRequest::Single(name.to_owned())
    }

    /// A request for the permissions with these names, in this order.
    pub fn multiple(names: Vec<&str>) -> (r: PermissionRequest)
        ensures
            r is Multiple,
            r.spec_permissions() == Seq::new(names.len() as nat, |i: int| names[i]@),
    {
        let mut permissions: Vec<String> = Vec::new();
        let mut i: usize = 0;
        while i < names.len()
            invariant
                i <= names.len(),
                permissions.len() == i,
                forall|j: int| 0 <= j < i ==> (#[trigger] permissions[j])@ == names[j]@,
            decreases names.len() - i,
        {
            permissions.push(names[i].to_owned());
            i += 1;
        }
        assert(permissions.deep_view() =~= Seq::new(names.len() as nat, |i: int| names[i]@));
        PermissionRequest::Multiple(permissions)
    }
}

impl Clone for PermissionRequest {
    fn clone(&self) -> (r: PermissionRequest)
        ensures
            r.spec_permissions() == self.spec_permissions(),
            r is Single <==> self is Single,
    {
        match self {
            PermissionRequest::Single(permission) => PermissionRequest::Single(permission.clone()),
            PermissionRequest::Multiple(permissions) => {
                let copies = permissions.clone();
                assert(copies.deep_view() =~= permissions.deep_view());
                PermissionRequest::Multiple(copies)
            },
        }
    }
}

impl Clone for PermissionRequestCode {
    fn clone(&self) -> (r: PermissionRequestCode)
        ensures
            r.permission@ == self.permission@,
            r.code == self.code,
    {
        PermissionRequestCode { permission: self.permission.clone(), code: self.code }
    }
}

impl FromSpecImpl<String> for PermissionRequest {
    open spec fn obeys_from_spec() -> bool {
        true
    }

    open spec fn from_spec(value: String) -> PermissionRequest {
        PermissionRequest::Single(value)
    }
}

impl From<String> for PermissionRequest {
    fn from(value: String) -> (r: PermissionRequest) {
        PermissionRequest::Single(value)
    }
}

impl FromSpecImpl<Vec<String>> for PermissionRequest {
    open spec fn obeys_from_spec() -> bool {
        true
    }

    open spec fn from_spec(value: Vec<String>) -> PermissionRequest {
        PermissionRequest::Multiple(value)
    }
}

impl From<Vec<String>> for PermissionRequest {
    fn from(value: Vec<String>) -> (r: PermissionRequest) {
        PermissionRequest::Multiple(value)
    }
}

/// The codes that the host answered, in its order.
pub fn output_codes(output: Either<i32, Vec<i32>>) -> (r: Vec<i32>)
    ensures
        r@ == spec_codes(output),
{
    match output {
        Either::A(code) => {
            let mut codes: Vec<i32> = Vec::new();
            codes.push(code);
            assert(codes@ =~= seq![code]);
            codes
        },
        Either::B(codes) => codes,
    }
}

} // verus!

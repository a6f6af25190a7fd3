//! Name resolution and invocation: what to send, and what a reply means.
use vstd::prelude::*;

use crate::variant::{decoded, encoded, EvilVariant, TypedVariant, VariantError};
use crate::{WinError, LOCALE_USER_DEFAULT};

verus! {

/// Flag bit of a method call.
pub const DISPATCH_METHOD: u16 = 1;

/// Flag bit of a property read.
pub const DISPATCH_PROPERTYGET: u16 = 2;

/// Flag bit of a property write.
pub const DISPATCH_PROPERTYPUT: u16 = 4;

/// Flag bit added for the by-reference kinds.
pub const DISPATCH_BYREF: u16 = 8;

/// The kinds of invocation, each sent as a flag set.
#[derive(Clone, Copy, Debug, PartialEq, Eq, Structural)]
pub enum Invocation {
    Method,
    PropertyGet,
    PropertySet,
    MethodByref,
    PropertyGetByRef,
    PropertySetByRef,
    Byref,
}

/// The flag set sent for each kind.
pub open spec fn invocation_flags(k: Invocation) -> u16 {
    match k {
        Invocation::Method => 1,
        Invocation::PropertyGet => 2,
        Invocation::PropertySet => 4,
        Invocation::MethodByref => 9,
        Invocation::PropertyGetByRef => 10,
        Invocation::PropertySetByRef => 12,
        Invocation::Byref => 8,
    }
}

/// The by-reference variant of each kind.
pub open spec fn by_ref_of(k: Invocation) -> Invocation {
    match k {
        Invocation::Method | Invocation::MethodByref => Invocation::MethodByref,
        Invocation::PropertyGet | Invocation::PropertyGetByRef => Invocation::PropertyGetByRef,
        Invocation::PropertySet | Invocation::PropertySetByRef => Invocation::PropertySetByRef,
        Invocation::Byref => Invocation::Byref,
    }
}

impl Invocation {
    pub fn flags(&self) -> (r: u16)
        ensures
            r == invocation_flags(*self),
    {
        match self {
            Invocation::Method => DISPATCH_METHOD,
            Invocation::PropertyGet => DISPATCH_PROPERTYGET,
            Invocation::PropertySet => DISPATCH_PROPERTYPUT,
            Invocation::MethodByref => 9,
            Invocation::PropertyGetByRef => 10,
            Invocation::PropertySetByRef => 12,
            Invocation::Byref => DISPATCH_BYREF,
        }
    }

    /// The same kind with the reference flag added.
    pub fn by_ref(self) -> (r: Invocation)
        ensures
            r == by_ref_of(self),
            invocation_flags(r) == invocation_flags(self) | DISPATCH_BYREF,
    {
        proof {
            lemma_by_ref_flags(self);
        }
        match self {
            Invocation::Method | Invocation::MethodByref => Invocation::MethodByref,
            Invocation::PropertyGet | Invocation::PropertyGetByRef => Invocation::PropertyGetByRef,
            Invocation::PropertySet | Invocation::PropertySetByRef => Invocation::PropertySetByRef,
            Invocation::Byref => Invocation::Byref,
        }
    }
}

/// Every by-reference kind is its base kind with the reference flag or-ed in.
pub proof fn lemma_by_ref_flags(k: Invocation)
    ensures
        invocation_flags(by_ref_of(k)) == invocation_flags(k) | DISPATCH_BYREF,
{
    assert(1u16 | 8u16 == 9u16) by (bit_vector);
    assert(2u16 | 8u16 == 10u16) by (bit_vector);
    assert(4u16 | 8u16 == 12u16) by (bit_vector);
    assert(9u16 | 8u16 == 9u16) by (bit_vector);
    assert(10u16 | 8u16 == 10u16) by (bit_vector);
    assert(12u16 | 8u16 == 12u16) by (bit_vector);
    assert(8u16 | 8u16 == 8u16) by (bit_vector);
}

/// The structured detail the remote side returns with a failed invocation.
#[derive(Debug, Default, PartialEq, Eq)]
pub struct ExceptionInfo {
    pub code: u16,
    pub source: String,
    pub description: String,
    pub help_file: String,
    pub help_context: u32,
    pub scode: i32,
}

/// Failures of resolution and of invocation, kept apart.
#[derive(Debug, PartialEq, Eq)]
pub enum DispatchError {
    /// The remote call failed; `error` is its result code.
    InvokeError { invoked_name: String, error: i32, exception: ExceptionInfo },
    /// The name could not be resolved; `error` is the lookup's result code.
    DispidError { name: String, error: i32 },
}

/// How an invocation failed on the remote side.
#[derive(Debug, PartialEq, Eq)]
pub struct InvokeFailure {
    pub error: i32,
    pub exception: ExceptionInfo,
}

/// `e` says that resolving `name` failed with `code`.
pub open spec fn is_dispid_error(e: WinError, name: Seq<char>, code: i32) -> bool {
    &&& e matches WinError::DispatchError(DispatchError::DispidError { name: n, error })
    &&& n@ == name
    &&& error == code
}

/// `e` says that invoking `name` failed as `f` tells.
pub open spec fn is_invoke_error(e: WinError, name: Seq<char>, f: InvokeFailure) -> bool {
    &&& e matches WinError::DispatchError(
        DispatchError::InvokeError { invoked_name, error, exception },
    )
    &&& invoked_name@ == name
    &&& error == f.error
    &&& exception == f.exception
}

/// The result of a decoded reply, with codec failures as client errors.
pub open spec fn decoded_reply(w: EvilVariant) -> Result<TypedVariant, WinError> {
    match decoded(w) {
        Ok(v) => Ok(v),
        Err(e) => Err(WinError::VariantError(e)),
    }
}

/// Maps the outcome of looking up `member_name` (the identifier, or the
/// lookup's result code) to the identifier or a resolution error.
pub fn get_dispid(member_name: &str, lookup: Result<i32, i32>) -> (r: Result<i32, WinError>)
    ensures
        match lookup {
            Ok(id) => r == Ok::<i32, WinError>(id),
            Err(code) => r matches Err(e) && is_dispid_error(e, member_name@, code),
        },
{
    match lookup {
        Ok(id) => Ok(id),
        Err(code) => Err(
            WinError::DispatchError(DispatchError::DispidError { name: member_name.to_owned(), error: code }),
        ),
    }
}

/// The argument list as the remote side reads it: the encoded values in
/// order and, in named mode, one identifier per argument.
pub struct DispParams {
    pub rgvarg: Vec<EvilVariant>,
    pub named_args: Vec<i32>,
}

/// Packs arguments. Each is encoded in order; in named
/// mode the arguments get the identifiers 0, 1, ... by position.
pub fn dispparams(vars: Vec<TypedVariant>, named: bool) -> (r: DispParams)
    requires
        vars@.len() <= i32::MAX,
    ensures
        r.rgvarg@.len() == vars@.len(),
        forall|i: int| 0 <= i < vars@.len() ==> r.rgvarg@[i] == encoded(#[trigger] vars@[i]),
        named ==> r.named_args@.len() == vars@.len(),
        named ==> forall|i: int| 0 <= i < vars@.len() ==> #[trigger] r.named_args@[i] == i,
        !named ==> r.named_args@.len() == 0,
{
    let mut rgvarg: Vec<EvilVariant> = Vec::new();
    let mut named_args: Vec<i32> = Vec::new();
    let n = vars.len();
    let mut i: usize = 0;
    while i < n
        invariant
            n == vars@.len(),
            n <= i32::MAX,
            i <= n,
            rgvarg@.len() == i,
            forall|j: int| 0 <= j < i ==> rgvarg@[j] == encoded(#[trigger] vars@[j]),
            named ==> named_args@.len() == i,
            named ==> forall|j: int| 0 <= j < i ==> #[trigger] named_args@[j] == j,
            !named ==> named_args@.len() == 0,
        decreases n - i,
    {
        rgvarg.push(vars[i].encode());
        if named {
            named_args.push(i as i32);
        }
        i = i + 1;
    }
    DispParams { rgvarg, named_args }
}

/// One invocation as it goes to the remote side.
pub struct InvokeRequest {
    pub dispid: i32,
    pub flags: u16,
    pub locale: u32,
    pub params: DispParams,
}

/// One invocation to be made: member name, kind, and arguments.
pub struct Call {
    pub member: String,
    pub flag: Invocation,
    pub args: Vec<TypedVariant>,
    /// Whether the arguments are passed with identifiers.
    pub named: bool,
}

impl Call {
    pub fn new(member: &str, flag: Invocation, args: Vec<TypedVariant>) -> (r: Call)
        ensures
            r.member@ == member@,
            r.flag == flag,
            r.args@ == args@,
            !r.named,
    {
        Call { member: member.to_owned(), flag, args, named: false }
    }

    /// A property read without arguments.
    pub fn prop(property_name: &str) -> (r: Call)
        ensures
            r.member@ == property_name@,
            r.flag == Invocation::PropertyGet,
            r.args@.len() == 0,
            !r.named,
    {
        Call::new(property_name, Invocation::PropertyGet, Vec::new())
    }

    /// A method call without arguments.
    pub fn method(method_name: &str) -> (r: Call)
        ensures
            r.member@ == method_name@,
            r.flag == Invocation::Method,
            r.args@.len() == 0,
            !r.named,
    {
        Call::new(method_name, Invocation::Method, Vec::new())
    }

    /// Given the outcome of resolving the member's name, the request to send.
    pub fn request(self, lookup: Result<i32, i32>) -> (r: Result<InvokeRequest, WinError>)
        requires
            self.args@.len() <= i32::MAX,
        ensures
            match lookup {
                Ok(id) => r matches Ok(req) && {
                    &&& req.dispid == id
                    &&& req.flags == invocation_flags(self.flag)
                    &&& req.locale == LOCALE_USER_DEFAULT
                    &&& req.params.rgvarg@.len() == self.args@.len()
                    &&& forall|i: int|
                        0 <= i < self.args@.len() ==> req.params.rgvarg@[i] == encoded(
                            #[trigger] self.args@[i],
                        )
                    &&& self.named ==> req.params.named_args@.len() == self.args@.len()
                    &&& self.named ==> forall|i: int|
                        0 <= i < self.args@.len() ==> #[trigger] req.params.named_args@[i] == i
                    &&& !self.named ==> req.params.named_args@.len() == 0
                },
                Err(code) => r matches Err(e) && is_dispid_error(e, self.member@, code),
            },
    {
        let dispid = get_dispid(self.member.as_str(), lookup)?;
        let flags = self.flag.flags();
        let params = dispparams(self.args, self.named);
        Ok(InvokeRequest { dispid, flags, locale: LOCALE_USER_DEFAULT, params })
    }
}

/// Maps the raw reply to invoking `method_name`: the result record, or an
/// invocation error that keeps the remote's exception detail.
pub fn call_raw(method_name: &str, reply: Result<EvilVariant, InvokeFailure>) -> (r: Result<
    EvilVariant,
    WinError,
>)
    ensures
        match reply {
            Ok(w) => r == Ok::<EvilVariant, WinError>(w),
            Err(f) => r matches Err(e) && is_invoke_error(e, method_name@, f),
        },
{
    match reply {
        Ok(w) => Ok(w),
        Err(f) => Err(
            WinError::DispatchError(
                DispatchError::InvokeError {
                    invoked_name: method_name.to_owned(),
                    error: f.error,
                    exception: f.exception,
                },
            ),
        ),
    }
}

/// Maps the raw reply to invoking `method_name` to a typed value. Decoding
/// failures, "no value" among them, are passed on, not smoothed over.
pub fn call(method_name: &str, reply: Result<EvilVariant, InvokeFailure>) -> (r: Result<
    TypedVariant,
    WinError,
>)
    ensures
        match reply {
            Ok(w) => r == decoded_reply(w),
            Err(f) => r matches Err(e) && is_invoke_error(e, method_name@, f),
        },
{
    let w = call_raw(method_name, reply)?;
    match TypedVariant::decode(&w) {
        Ok(v) => Ok(v),
        Err(e) => Err(WinError::VariantError(e)),
    }
}

} // verus!

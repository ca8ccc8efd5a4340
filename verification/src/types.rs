//! The two values a C caller holds: a handle on a blocking operator and a
//! byte buffer handed out by one.

use opendal::BlockingOperator;
use vstd::prelude::*;
use vstd::std_specs::convert::FromSpec;

verus! {

/// `opendal::BlockingOperator`, declared so that it may stand behind a handle.
/// Nothing is known of what it holds.
#[verifier::external_type_specification]
#[verifier::external_body]
pub struct ExBlockingOperator(BlockingOperator);

/// A handle on a blocking operator that the handle does not own.
///
/// The handle is either null or refers to one operator, borrowed for `'a`.
/// An optional shared reference has the layout of a nullable address, so a
/// null handle is the zero address and a C caller may test it as a boolean.
#[allow(non_camel_case_types)]
pub struct opendal_operator_ptr<'a> {
    ptr: Option<&'a BlockingOperator>,
}

impl<'a> View for opendal_operator_ptr<'a> {
    type V = Option<BlockingOperator>;

    /// The operator referred to, if any.
    closed spec fn view(&self) -> Option<BlockingOperator> {
        match self.ptr {
            Some(op) => Some(*op),
            None => None,
        }
    }
}

impl<'a> opendal_operator_ptr<'a> {
    /// Whether this handle refers to nothing.
    pub open spec fn spec_is_null(&self) -> bool {
        self@ is None
    }

    /// The handle that refers to nothing.
    pub fn null() -> (handle: Self)
        ensures
            handle.is_null(),
    {
        Self { ptr: None }
    }

    /// Whether this handle refers to nothing.
    #[verifier::when_used_as_spec(spec_is_null)]
    pub fn is_null(&self) -> (null: bool)
        ensures
            null == self.spec_is_null(),
    {
        self.ptr.is_none()
    }

    /// The operator behind a handle that is not null.
    pub fn get_ref(&self) -> (op: &'a BlockingOperator)
        requires
            !self.is_null(),
        ensures
            self@ == Some(*op),
    {
        self.ptr.unwrap()
    }
}

impl<'a> From<&'a BlockingOperator> for opendal_operator_ptr<'a> {
    /// A handle on `value`. It is never null, and gives `value` back.
    fn from(value: &'a BlockingOperator) -> (handle: Self)
        ensures
            handle@ == Some(*value),
    {
        Self { ptr: Some(value) }
    }
}

impl<'a> vstd::std_specs::convert::FromSpecImpl<&'a BlockingOperator> for opendal_operator_ptr<'a> {
    open spec fn obeys_from_spec() -> bool {
        true
    }

    closed spec fn from_spec(value: &'a BlockingOperator) -> Self {
        Self { ptr: Some(value) }
    }
}

impl<'a> From<&'a mut BlockingOperator> for opendal_operator_ptr<'a> {
    /// A handle on `value`, which gives up its exclusive access for `'a`.
    fn from(value: &'a mut BlockingOperator) -> (handle: Self)
        ensures
            handle@ == Some(*old(value)),
            *final(value) == *old(value),
    {
        Self { ptr: Some(value) }
    }
}

impl<'a> vstd::std_specs::convert::FromSpecImpl<&'a mut BlockingOperator> for opendal_operator_ptr<'a> {
    open spec fn obeys_from_spec() -> bool {
        true
    }

    closed spec fn from_spec(value: &'a mut BlockingOperator) -> Self {
        Self { ptr: Some(&*value) }
    }
}

/// A handle made from a reference is not null, and the operator behind it is
/// the one that the reference is to.
pub proof fn lemma_handle_refers_to_its_operator<'a>(value: &'a BlockingOperator)
    ensures
        !opendal_operator_ptr::from_spec(value).is_null(),
        opendal_operator_ptr::from_spec(value)@ == Some(*value),
{
}

/// A byte sequence handed across the boundary, and the right to free it.
///
/// The C caller reads `len` bytes at the address `data`. The bytes stay
/// where they are and as they are for as long as this value lives; giving the
/// value to [`opendal_bytes_free`] ends that, once.
#[allow(non_camel_case_types)]
pub struct opendal_bytes {
    data: usize,
    len: usize,
    storage: Vec<u8>,
}

impl View for opendal_bytes {
    type V = Seq<u8>;

    /// The bytes that the buffer describes.
    closed spec fn view(&self) -> Seq<u8> {
        self.storage@
    }
}

/// `Vec::as_ptr`, as an address. A vector's pointer is never null, also
/// when the vector is empty and has allocated nothing.
#[verifier::external_body]
fn first_byte_address(vec: &Vec<u8>) -> (addr: usize)
    ensures
        addr != 0,
{
    vec.as_ptr() as usize
}

impl opendal_bytes {
    #[verifier::type_invariant]
    spec fn shape_matches_storage(&self) -> bool {
        &&& self.len == self.storage@.len()
        &&& self.data != 0
    }

    /// The address that [`opendal_bytes::data`] reports.
    pub closed spec fn spec_data(&self) -> usize {
        self.data
    }

    /// The length that [`opendal_bytes::len`] reports.
    pub closed spec fn spec_len(&self) -> usize {
        self.len
    }

    /// Takes `vec` out of the caller's hands and describes where its bytes
    /// lie. Nothing is copied.
    pub fn from_vec(vec: Vec<u8>) -> (bytes: Self)
        ensures
            bytes@ == vec@,
            bytes.len() == vec.len(),
            bytes.data() != 0,
    {
        let data = first_byte_address(&vec);
        let len = vec.len();
        Self { data, len, storage: vec }
    }

    /// The address of the first byte. It is never zero.
    #[verifier::when_used_as_spec(spec_data)]
    pub fn data(&self) -> (addr: usize)
        ensures
            addr == self.spec_data(),
            addr != 0,
    {
        proof {
            use_type_invariant(self);
        }
        self.data
    }

    /// The number of bytes.
    #[verifier::when_used_as_spec(spec_len)]
    pub fn len(&self) -> (len: usize)
        ensures
            len == self.spec_len(),
            len == self@.len(),
    {
        proof {
            use_type_invariant(self);
        }
        self.len
    }

    /// The bytes, readable until the buffer is freed.
    pub fn as_slice(&self) -> (bytes: &[u8])
        ensures
            bytes@ == self@,
    {
        self.storage.as_slice()
    }
}

/// Frees the bytes of `vec`. The buffer is given up by this call, so nothing
/// can read it or free it again afterwards.
pub fn opendal_bytes_free(vec: opendal_bytes) {
    let _released = vec;
}

} // verus!

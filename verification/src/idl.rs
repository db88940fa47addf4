//! The interface description (IDL) of a lock script: the commitment to it in the
//! code cell, and the validation of a witness against it.
//!
//! The commitment is the bare SHA-256 digest of the IDL file, at the end of the
//! code cell data. `ckb_idl_client` has a check of its own, for a 46-byte trailer
//! and canonical JSON. That check does not read a bare digest, so the digest is
//! compared here and the client decodes the witness.
use ckb_idl_client::{DecodedField, DecodedValue, WitnessObject};
use vstd::prelude::*;

use crate::bytes::{copy_range, push_bytes, read_array, same_bytes};
use crate::hash::{sha256, sha256_digest};
use crate::hex_text::{encode, hex_of};
use crate::text::{decimal, decimal_text, join_text};

verus! {

/// The number of bytes in the commitment.
pub const COMMITMENT_LEN: usize = 32;

/// The data of a code cell: the script binary, and behind it the SHA-256 digest
/// of the IDL file if the script has one.
pub open spec fn code_cell_contents(binary: Seq<u8>, idl: Option<Seq<u8>>) -> Seq<u8> {
    match idl {
        Some(idl) => binary + sha256_digest(idl),
        None => binary,
    }
}

/// Joins a script binary and the digest of its IDL file.
pub fn append_commitment(binary: &[u8], digest: &[u8; 32]) -> (data: Vec<u8>)
    ensures
        data@ == binary@ + digest@,
{
    let mut data: Vec<u8> = copy_range(binary, 0, binary.len());
    assert(data@ =~= binary@);
    push_bytes(&mut data, digest.as_slice());
    data
}

/// The IDL bytes, if there are any.
pub open spec fn idl_view(idl: Option<&Vec<u8>>) -> Option<Seq<u8>> {
    match idl {
        Some(idl) => Some(idl@),
        None => None,
    }
}

/// The data to deploy for a script binary and, if it has one, its IDL file. The
/// code cell then commits to that file.
pub fn code_cell_data(binary: &[u8], idl: Option<&Vec<u8>>) -> (data: Vec<u8>)
    ensures
        data@ == code_cell_contents(binary@, idl_view(idl)),
        data@.len() == binary@.len() + if idl is Some { COMMITMENT_LEN as int } else { 0 },
        idl matches Some(idl) ==> commitment_of(sha256_digest(idl@), data@) is Ok,
{
    match idl {
        Some(idl) => {
            let digest: [u8; 32] = sha256(idl.as_slice());
            let data: Vec<u8> = append_commitment(binary, &digest);
            assert(data@.skip(data@.len() - COMMITMENT_LEN) =~= digest@);
            data
        },
        None => {
            let data: Vec<u8> = copy_range(binary, 0, binary.len());
            assert(data@ =~= binary@);
            data
        },
    }
}

/// Declares `ckb_idl_client::DecodedValue`, whose variants and fields are all
/// public.
#[verifier::external_type_specification]
pub struct ExDecodedValue(ckb_idl_client::DecodedValue);

/// Declares `ckb_idl_client::DecodedField`, whose fields are all public.
#[verifier::external_type_specification]
pub struct ExDecodedField(ckb_idl_client::DecodedField);

/// Declares `ckb_idl_client::WitnessObject`, whose fields are all public.
#[verifier::external_type_specification]
pub struct ExWitnessObject(ckb_idl_client::WitnessObject);

/// A decoded value by its contents.
pub enum ValueView {
    Bytes(Seq<u8>),
    U8(u8),
    U16(u16),
    U32(u32),
    U64(u64),
    U128(u128),
    Vector(Seq<ValueView>),
    Struct(Seq<(Seq<char>, ValueView)>),
    Union { tag: u32, variant: Seq<char>, value: Seq<(Seq<char>, ValueView)> },
    Optional(Option<Box<ValueView>>),
}

/// The contents of a decoded value.
pub open spec fn value_view(value: DecodedValue) -> ValueView
    decreases value,
{
    match value {
        DecodedValue::Bytes(bytes) => ValueView::Bytes(bytes@),
        DecodedValue::U8(n) => ValueView::U8(n),
        DecodedValue::U16(n) => ValueView::U16(n),
        DecodedValue::U32(n) => ValueView::U32(n),
        DecodedValue::U64(n) => ValueView::U64(n),
        DecodedValue::U128(n) => ValueView::U128(n),
        DecodedValue::Vector(items) => ValueView::Vector(
            Seq::new(
                items@.len(),
                |i: int|
                    if 0 <= i < items@.len() {
                        value_view(items@[i])
                    } else {
                        arbitrary()
                    },
            ),
        ),
        DecodedValue::Struct(object) => ValueView::Struct(object_view(object)),
        DecodedValue::Union { tag, variant, value } => ValueView::Union {
            tag,
            variant: variant@,
            value: object_view(value),
        },
        DecodedValue::Optional(None) => ValueView::Optional(None),
        DecodedValue::Optional(Some(inner)) => ValueView::Optional(
            Some(Box::new(value_view(*inner))),
        ),
    }
}

/// The names and values of the fields of a decoded object.
pub open spec fn object_view(object: WitnessObject) -> Seq<(Seq<char>, ValueView)>
    decreases object,
{
    Seq::new(
        object.fields@.len(),
        |i: int|
            if 0 <= i < object.fields@.len() {
                (object.fields@[i].name@, value_view(object.fields@[i].value))
            } else {
                arbitrary()
            },
    )
}

/// A field of a witness, decoded as the IDL describes it.
#[derive(Debug, PartialEq)]
pub struct ValidatedField {
    /// The name of the field.
    pub name: String,
    /// The type that the IDL gives the field.
    pub type_: String,
    /// The value.
    pub value: DecodedValue,
}

/// A decoded field by its contents.
pub struct FieldView {
    pub name: Seq<char>,
    pub type_: Seq<char>,
    pub value: ValueView,
}

impl View for ValidatedField {
    type V = FieldView;

    open spec fn view(&self) -> FieldView {
        FieldView { name: self.name@, type_: self.type_@, value: value_view(self.value) }
    }
}

/// The contents of each field in a list.
pub open spec fn field_views(fields: Seq<ValidatedField>) -> Seq<FieldView> {
    Seq::new(fields.len(), |i: int| fields[i]@)
}

/// Why an IDL file or a witness is refused.
#[derive(Debug, PartialEq, Eq)]
pub enum IdlError {
    /// The code cell data is too short to hold a commitment.
    InsufficientData { actual: usize },
    /// The commitment is not the digest of the IDL file.
    HashMismatch { computed: [u8; 32], expected: [u8; 32] },
    /// The IDL file is not an IDL document.
    Parse(String),
    /// The IDL document describes no lock witness that can be decoded.
    Document(String),
    /// The witness is not what the IDL describes.
    Witness(String),
}

/// An error by its contents.
pub enum IdlErrorView {
    InsufficientData { actual: nat },
    HashMismatch { computed: Seq<u8>, expected: Seq<u8> },
    Parse(Seq<char>),
    Document(Seq<char>),
    Witness(Seq<char>),
}

impl View for IdlError {
    type V = IdlErrorView;

    open spec fn view(&self) -> IdlErrorView {
        match *self {
            IdlError::InsufficientData { actual } => IdlErrorView::InsufficientData {
                actual: actual as nat,
            },
            IdlError::HashMismatch { computed, expected } => IdlErrorView::HashMismatch {
                computed: computed@,
                expected: expected@,
            },
            IdlError::Parse(text) => IdlErrorView::Parse(text@),
            IdlError::Document(text) => IdlErrorView::Document(text@),
            IdlError::Witness(text) => IdlErrorView::Witness(text@),
        }
    }
}

impl IdlErrorView {
    /// The text for the user.
    pub open spec fn text(self) -> Seq<char> {
        match self {
            IdlErrorView::InsufficientData { actual } =>
            "IDL commitment verification failed: insufficient data: code_cell_data has "@
                + decimal_text(actual) + " bytes, need at least 32"@,
            IdlErrorView::HashMismatch { computed, expected } =>
            "IDL commitment verification failed: hash mismatch: computed "@ + hex_of(computed)
                + ", expected "@ + hex_of(expected),
            IdlErrorView::Parse(e) => "failed to parse IDL JSON: "@ + e,
            IdlErrorView::Document(e) => "witness validation failed: "@ + e,
            IdlErrorView::Witness(e) => "witness validation failed: "@ + e,
        }
    }

    /// Whether the commitment was verified before the error came.
    pub open spec fn is_after_commitment(self) -> bool {
        !(self is InsufficientData) && !(self is HashMismatch)
    }
}

impl IdlError {
    /// The message for the user.
    pub fn message(&self) -> (text: String)
        ensures
            text@ == self@.text(),
    {
        match self {
            IdlError::InsufficientData { actual } => {
                let mut text: String = join_text(
                    "IDL commitment verification failed: insufficient data: code_cell_data has ",
                    decimal(*actual as u128).as_str(),
                );
                text.append(" bytes, need at least 32");
                text
            },
            IdlError::HashMismatch { computed, expected } => {
                let mut text: String = join_text(
                    "IDL commitment verification failed: hash mismatch: computed ",
                    encode(computed.as_slice()).as_str(),
                );
                text.append(", expected ");
                text.append(encode(expected.as_slice()).as_str());
                text
            },
            IdlError::Parse(e) => join_text("failed to parse IDL JSON: ", e.as_str()),
            IdlError::Document(e) => join_text("witness validation failed: ", e.as_str()),
            IdlError::Witness(e) => join_text("witness validation failed: ", e.as_str()),
        }
    }

    /// Whether the commitment was verified before the error came.
    pub fn after_commitment(&self) -> (after: bool)
        ensures
            after == self@.is_after_commitment(),
    {
        match self {
            IdlError::InsufficientData { .. } => false,
            IdlError::HashMismatch { .. } => false,
            _ => true,
        }
    }
}

/// The outcome of a validation by its contents.
pub open spec fn outcome(result: Result<Vec<ValidatedField>, IdlError>) -> Result<
    Seq<FieldView>,
    IdlErrorView,
> {
    match result {
        Ok(fields) => Ok(field_views(fields@)),
        Err(e) => Err(e@),
    }
}

/// Whether the last 32 bytes of the code cell data are the digest of an IDL
/// file, and if not, why.
pub open spec fn commitment_of(digest: Seq<u8>, code_cell_data: Seq<u8>) -> Result<
    (),
    IdlErrorView,
> {
    let total = code_cell_data.len();
    if total < COMMITMENT_LEN {
        Err(IdlErrorView::InsufficientData { actual: total })
    } else if code_cell_data.skip(total - COMMITMENT_LEN) != digest {
        Err(
            IdlErrorView::HashMismatch {
                computed: digest,
                expected: code_cell_data.skip(total - COMMITMENT_LEN),
            },
        )
    } else {
        Ok(())
    }
}

/// Compares the digest of an IDL file with the commitment in the code cell.
pub fn check_commitment(digest: &[u8; 32], code_cell_data: &[u8]) -> (result: Result<(), IdlError>)
    ensures
        match result {
            Ok(_) => commitment_of(digest@, code_cell_data@) == Ok::<(), IdlErrorView>(()),
            Err(e) => commitment_of(digest@, code_cell_data@) == Err::<(), IdlErrorView>(e@),
        },
{
    let total: usize = code_cell_data.len();
    if total < COMMITMENT_LEN {
        return Err(IdlError::InsufficientData { actual: total });
    }
    let expected: [u8; 32] = read_array(code_cell_data, total - COMMITMENT_LEN);
    assert(expected@ =~= code_cell_data@.skip(total - COMMITMENT_LEN));
    if same_bytes(digest.as_slice(), expected.as_slice()) {
        Ok(())
    } else {
        Err(IdlError::HashMismatch { computed: *digest, expected })
    }
}

/// Checks that an IDL file is the one that the code cell commits to.
pub fn verify_commitment(idl: &[u8], code_cell_data: &[u8]) -> (result: Result<(), IdlError>)
    ensures
        match result {
            Ok(_) => commitment_of(sha256_digest(idl@), code_cell_data@) == Ok::<(), IdlErrorView>(
                (),
            ),
            Err(e) => commitment_of(sha256_digest(idl@), code_cell_data@) == Err::<
                (),
                IdlErrorView,
            >(e@),
        },
{
    let digest: [u8; 32] = sha256(idl);
    check_commitment(&digest, code_cell_data)
}

/// Declares `ckb_idl_client::IdlClient`.
#[verifier::external_type_specification]
#[verifier::external_body]
pub struct ExIdlClient(ckb_idl_client::IdlClient);

/// What `ckb_idl_client` makes of an IDL file and the bytes of a lock witness: the
/// types that the IDL gives the fields, and the decoded fields with their names, or
/// the text of the first error.
pub uninterp spec fn decoded_witness(idl: Seq<u8>, wire: Seq<u8>) -> Result<
    (Seq<Seq<char>>, Seq<(Seq<char>, ValueView)>),
    IdlErrorView,
>;

/// Why an IDL file gives no fields to decode a lock witness by, if it does not: it
/// is no IDL document, or the document describes no such witness.
pub uninterp spec fn document_fault(idl: Seq<u8>) -> Option<IdlErrorView>;

/// Whether an error, or that there is none, agrees with the fault of an IDL file:
/// the fault is the error if there is one, and else no other error than one of the
/// witness can come.
pub open spec fn in_order(fault: Option<IdlErrorView>, error: Option<IdlErrorView>) -> bool {
    match fault {
        Some(fault) => (fault is Parse || fault is Document) && error == Some(fault),
        None => error matches Some(e) ==> e is Witness,
    }
}

/// The error in a result, if there is one.
pub open spec fn error_in<T>(result: Result<T, IdlError>) -> Option<IdlErrorView> {
    match result {
        Ok(_) => None,
        Err(e) => Some(e@),
    }
}

/// The contents of each text in a list.
pub open spec fn text_views(list: Seq<String>) -> Seq<Seq<char>> {
    Seq::new(list.len(), |i: int| list[i]@)
}

/// The name and the value of each decoded field in a list.
pub open spec fn decoded_views(fields: Seq<DecodedField>) -> Seq<(Seq<char>, ValueView)> {
    Seq::new(fields.len(), |i: int| (fields[i].name@, value_view(fields[i].value)))
}

/// `ckb_idl_client::IdlClient::validate_witness_bytes`, on the fields that
/// `ckb_idl_client::IdlDocument::lock_witness` finds in the document that
/// `serde_json` reads from the IDL file, with the types of those fields: the result
/// is the named one, with one decoded field for each type. A fault of the file is
/// reported whatever the witness is; without one, only the witness can be at fault.
/// The result does not depend on the client, which holds an HTTP transport and a
/// cache.
#[verifier::external_body]
fn decode_witness(client: &ckb_idl_client::IdlClient, idl: &[u8], wire: &[u8]) -> (result: Result<
    (Vec<String>, Vec<DecodedField>),
    IdlError,
>)
    ensures
        match result {
            Ok((types, fields)) => decoded_witness(idl@, wire@) == Ok::<
                (Seq<Seq<char>>, Seq<(Seq<char>, ValueView)>),
                IdlErrorView,
            >((text_views(types@), decoded_views(fields@))) && types@.len() == fields@.len(),
            Err(e) => decoded_witness(idl@, wire@) == Err::<
                (Seq<Seq<char>>, Seq<(Seq<char>, ValueView)>),
                IdlErrorView,
            >(e@),
        },
        in_order(document_fault(idl@), error_in(result)),
{
    let document: ckb_idl_client::IdlDocument = match serde_json::from_slice(idl) {
        Ok(document) => document,
        Err(e) => return Err(IdlError::Parse(e.to_string())),
    };
    let schema = &document.lock_witness().map_err(|e| IdlError::Document(e.to_string()))?.fields;
    let object = client.validate_witness_bytes(schema, wire);
    let fields = object.map_err(|e| IdlError::Witness(e.to_string()))?.fields;
    Ok((schema.iter().map(|field| field.type_.clone()).collect(), fields))
}

/// Decoded fields with their types, each with the type in the same place.
pub open spec fn joined(types: Seq<Seq<char>>, fields: Seq<(Seq<char>, ValueView)>) -> Seq<
    FieldView,
> {
    Seq::new(
        fields.len(),
        |i: int| FieldView { name: fields[i].0, type_: types[i], value: fields[i].1 },
    )
}

/// Joins decoded fields with their types.
pub fn join_fields(types: Vec<String>, fields: Vec<DecodedField>) -> (list: Vec<ValidatedField>)
    requires
        types@.len() == fields@.len(),
    ensures
        field_views(list@) == joined(text_views(types@), decoded_views(fields@)),
{
    let count: usize = fields.len();
    let mut types_left: Vec<String> = types;
    let mut fields_left: Vec<DecodedField> = fields;
    let mut list: Vec<ValidatedField> = Vec::new();
    let mut i: usize = 0;
    while i < count
        invariant
            i <= count,
            count == types@.len(),
            count == fields@.len(),
            types_left@ == types@.skip(i as int),
            fields_left@ == fields@.skip(i as int),
            list@.len() == i,
            forall|j: int|
                0 <= j < i ==> {
                    &&& (#[trigger] list@[j]).name@ == fields@[j].name@
                    &&& list@[j].type_@ == types@[j]@
                    &&& list@[j].value == fields@[j].value
                },
        decreases count - i,
    {
        let type_: String = types_left.remove(0);
        let field: DecodedField = fields_left.remove(0);
        list.push(ValidatedField { name: field.name, type_, value: field.value });
        i = i + 1;
        assert(types_left@ =~= types@.skip(i as int));
        assert(fields_left@ =~= fields@.skip(i as int));
    }
    assert(field_views(list@) =~= joined(text_views(types@), decoded_views(fields@)));
    list
}

/// What a witness decodes to: its fields, or the first error.
pub open spec fn decoded_fields(idl: Seq<u8>, wire: Seq<u8>) -> Result<
    Seq<FieldView>,
    IdlErrorView,
> {
    match decoded_witness(idl, wire) {
        Ok((types, fields)) => Ok(joined(types, fields)),
        Err(e) => Err(e),
    }
}

/// What is known of a witness: that its IDL file is not the one that the code
/// cell commits to, or else what it decodes to.
pub open spec fn validation(
    commitment: Result<(), IdlErrorView>,
    decoded: Result<Seq<FieldView>, IdlErrorView>,
) -> Result<Seq<FieldView>, IdlErrorView> {
    match commitment {
        Err(e) => Err(e),
        Ok(_) => decoded,
    }
}

/// Verifies the commitment to an IDL file in the code cell data, then validates
/// the bytes of a witness against the IDL. Returns the decoded fields. The
/// commitment is looked at first, then the IDL file, then the witness.
pub fn verify_and_validate(
    client: &ckb_idl_client::IdlClient,
    code_cell_data: &[u8],
    idl: &[u8],
    wire_bytes: &[u8],
) -> (result: Result<Vec<ValidatedField>, IdlError>)
    ensures
        outcome(result) == validation(
            commitment_of(sha256_digest(idl@), code_cell_data@),
            decoded_fields(idl@, wire_bytes@),
        ),
        commitment_of(sha256_digest(idl@), code_cell_data@) is Ok ==> in_order(
            document_fault(idl@),
            error_in(result),
        ),
{
    match verify_commitment(idl, code_cell_data) {
        Err(e) => Err(e),
        Ok(_) => match decode_witness(client, idl, wire_bytes) {
            Ok((types, fields)) => Ok(join_fields(types, fields)),
            Err(e) => Err(e),
        },
    }
}

/// A code cell commits to no other file than one with the same digest.
pub proof fn commitment_is_exact(digest: Seq<u8>, other: Seq<u8>, code_cell_data: Seq<u8>)
    requires
        commitment_of(digest, code_cell_data) is Ok,
    ensures
        commitment_of(other, code_cell_data) is Ok <==> other == digest,
{
}

/// The commitment leaves the script binary as it is, in front.
pub proof fn commitment_keeps_binary(binary: Seq<u8>, idl: Option<Seq<u8>>)
    ensures
        code_cell_contents(binary, idl).take(binary.len() as int) == binary,
{
    assert(code_cell_contents(binary, idl).take(binary.len() as int) =~= binary);
}

/// The commitment of a code cell is in the last 32 bytes of its data. Data that is
/// shorter has none; another digest there is a mismatch, told with both.
pub proof fn commitments_are_the_last_bytes(digest: Seq<u8>, code_cell_data: Seq<u8>)
    ensures
        ({
            let total = code_cell_data.len() as int;
            let last = code_cell_data.subrange(total - 32, total);
            &&& commitment_of(digest, code_cell_data) is Ok <==> total >= 32 && last == digest
            &&& total < 32 ==> commitment_of(digest, code_cell_data) == Err::<(), IdlErrorView>(
                IdlErrorView::InsufficientData { actual: total as nat },
            )
            &&& total >= 32 && last != digest ==> commitment_of(digest, code_cell_data) == Err::<
                (),
                IdlErrorView,
            >(IdlErrorView::HashMismatch { computed: digest, expected: last })
        }),
{
    let total = code_cell_data.len() as int;
    if total >= 32 {
        assert(code_cell_data.skip(total - 32) =~= code_cell_data.subrange(total - 32, total));
    }
}

/// The data of a code cell is the binary, and behind it the digest of the IDL file if
/// there is one, and nothing else.
pub proof fn code_cells_end_in_the_digest(binary: Seq<u8>, idl: Seq<u8>)
    ensures
        code_cell_contents(binary, None) == binary,
        code_cell_contents(binary, Some(idl)).len() == binary.len() + sha256_digest(idl).len(),
        code_cell_contents(binary, Some(idl)).take(binary.len() as int) == binary,
        code_cell_contents(binary, Some(idl)).skip(binary.len() as int) == sha256_digest(idl),
{
    let data = code_cell_contents(binary, Some(idl));
    assert(data.take(binary.len() as int) =~= binary);
    assert(data.skip(binary.len() as int) =~= sha256_digest(idl));
}

/// Joined fields keep their names, values and places, with the type in the same place.
pub proof fn fields_keep_their_places(
    types: Seq<Seq<char>>,
    fields: Seq<(Seq<char>, ValueView)>,
)
    ensures
        joined(types, fields).len() == fields.len(),
        forall|i: int|
            0 <= i < fields.len() ==> {
                &&& (#[trigger] joined(types, fields)[i]).name == fields[i].0
                &&& joined(types, fields)[i].type_ == types[i]
                &&& joined(types, fields)[i].value == fields[i].1
            },
{
}

/// Without the commitment nothing else counts; with it, the witness decides.
pub proof fn commitment_comes_first(
    e: IdlErrorView,
    decoded: Result<Seq<FieldView>, IdlErrorView>,
)
    ensures
        validation(Err(e), decoded) == Err::<Seq<FieldView>, IdlErrorView>(e),
        validation(Ok(()), decoded) == decoded,
{
}

/// A fault of the IDL file is the error; without one, an error is one of the witness.
pub proof fn file_faults_come_before_witness_faults(
    fault: Option<IdlErrorView>,
    error: Option<IdlErrorView>,
)
    requires
        in_order(fault, error),
    ensures
        fault is Some ==> error == fault && (fault->0 is Parse || fault->0 is Document),
        fault is None && error is Some ==> error->0 is Witness,
{
}

/// What decoding gives is the fields joined with their types, or its error.
pub proof fn decoding_joins_fields(idl: Seq<u8>, wire: Seq<u8>)
    ensures
        decoded_witness(idl, wire) matches Err(e) ==> decoded_fields(idl, wire) == Err::<
            Seq<FieldView>,
            IdlErrorView,
        >(e),
        decoded_witness(idl, wire) matches Ok((types, fields)) ==> (decoded_fields(
            idl,
            wire,
        ) matches Ok(list) && list.len() == fields.len() && forall|i: int|
            0 <= i < fields.len() ==> (#[trigger] list[i]).name == fields[i].0 && list[i].type_
                == types[i] && list[i].value == fields[i].1),
{
}

/// The contents of a decoded field are its fields, in its place in a list.
pub proof fn field_views_are_fields(fields: Seq<ValidatedField>, i: int)
    requires
        0 <= i < fields.len(),
    ensures
        field_views(fields).len() == fields.len(),
        field_views(fields)[i].name == fields[i].name@,
        field_views(fields)[i].type_ == fields[i].type_@,
        field_views(fields)[i].value == value_view(fields[i].value),
{
}

/// The contents of a list of texts and of decoded fields are those of each, in its place.
pub proof fn decoded_lists_keep_places(types: Seq<String>, fields: Seq<DecodedField>, i: int)
    ensures
        text_views(types).len() == types.len(),
        0 <= i < types.len() ==> text_views(types)[i] == types[i]@,
        decoded_views(fields).len() == fields.len(),
        0 <= i < fields.len() ==> decoded_views(fields)[i].0 == fields[i].name@,
        0 <= i < fields.len() ==> decoded_views(fields)[i].1 == value_view(fields[i].value),
{
}

/// The contents of an error are its fields.
pub proof fn error_views_are_fields(
    actual: usize,
    computed: [u8; 32],
    expected: [u8; 32],
    text: String,
)
    ensures
        (IdlError::InsufficientData { actual })@ == (IdlErrorView::InsufficientData {
            actual: actual as nat,
        }),
        (IdlError::HashMismatch { computed, expected })@ == (IdlErrorView::HashMismatch {
            computed: computed@,
            expected: expected@,
        }),
        IdlError::Parse(text)@ == IdlErrorView::Parse(text@),
        IdlError::Document(text)@ == IdlErrorView::Document(text@),
        IdlError::Witness(text)@ == IdlErrorView::Witness(text@),
{
}

/// The contents of the plain decoded values are the values themselves.
pub proof fn plain_values_are_kept(
    bytes: Vec<u8>,
    a: u8,
    b: u16,
    c: u32,
    d: u64,
    e: u128,
    inner: DecodedValue,
)
    ensures
        value_view(DecodedValue::Bytes(bytes)) == ValueView::Bytes(bytes@),
        value_view(DecodedValue::U8(a)) == ValueView::U8(a),
        value_view(DecodedValue::U16(b)) == ValueView::U16(b),
        value_view(DecodedValue::U32(c)) == ValueView::U32(c),
        value_view(DecodedValue::U64(d)) == ValueView::U64(d),
        value_view(DecodedValue::U128(e)) == ValueView::U128(e),
        value_view(DecodedValue::Optional(None)) == ValueView::Optional(None),
        value_view(DecodedValue::Optional(Some(Box::new(inner)))) == ValueView::Optional(
            Some(Box::new(value_view(inner))),
        ),
{
}

/// The messages for refused IDL files and witnesses.
pub proof fn idl_messages_tell_the_fault(
    actual: nat,
    computed: Seq<u8>,
    expected: Seq<u8>,
    reason: Seq<char>,
)
    ensures
        (IdlErrorView::InsufficientData { actual }).text()
            == "IDL commitment verification failed: insufficient data: code_cell_data has "@
            + decimal_text(actual) + " bytes, need at least 32"@,
        (IdlErrorView::HashMismatch { computed, expected }).text()
            == "IDL commitment verification failed: hash mismatch: computed "@ + hex_of(computed)
            + ", expected "@ + hex_of(expected),
        IdlErrorView::Parse(reason).text() == "failed to parse IDL JSON: "@ + reason,
        IdlErrorView::Document(reason).text() == "witness validation failed: "@ + reason,
        IdlErrorView::Witness(reason).text() == "witness validation failed: "@ + reason,
{
}

/// The outcome of a validation is the contents of the fields, or of the error; the IDL file
/// that it was given is its bytes.
pub proof fn outcomes_are_kept(fields: Vec<ValidatedField>, e: IdlError, idl: &Vec<u8>)
    ensures
        outcome(Ok(fields)) matches Ok(list) && list.len() == fields@.len() && forall|i: int|
            0 <= i < fields@.len() ==> #[trigger] list[i] == fields@[i]@,
        outcome(Err(e)) == Err::<Seq<FieldView>, IdlErrorView>(e@),
        error_in::<Vec<ValidatedField>>(Ok(fields)) is None,
        error_in::<Vec<ValidatedField>>(Err(e)) == Some(e@),
        idl_view(Some(idl)) == Some(idl@),
        idl_view(None) == None::<Seq<u8>>,
{
}

/// The contents of a decoded vector, struct or union are those of its items and fields, each
/// in its place, with the names of the fields and the tag and name of the variant.
pub proof fn nested_values_are_kept(
    items: Vec<DecodedValue>,
    object: WitnessObject,
    tag: u32,
    variant: String,
    i: int,
)
    ensures
        value_view(DecodedValue::Vector(items)) matches ValueView::Vector(list) && list.len()
            == items@.len() && (0 <= i < items@.len() ==> list[i] == value_view(items@[i])),
        value_view(DecodedValue::Struct(object)) == ValueView::Struct(object_view(object)),
        value_view((DecodedValue::Union { tag, variant, value: object })) == (ValueView::Union {
            tag,
            variant: variant@,
            value: object_view(object),
        }),
        object_view(object).len() == object.fields@.len(),
        0 <= i < object.fields@.len() ==> object_view(object)[i].0 == object.fields@[i].name@
            && object_view(object)[i].1 == value_view(object.fields@[i].value),
{
}

} // verus!

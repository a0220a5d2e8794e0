//! Reading the two identifying fields out of an opened file.
//!
//! Opening and parsing a file is the caller's part.  What is read from the
//! opened object, in which order, and how each failure is classified, stands
//! here.
use vstd::prelude::*;
use vstd::utf8::{decode_utf8, valid_utf8};
use super::types::{DicomError, DicomInfo};

verus! {

#[verifier::external_type_specification]
#[verifier::external_body]
#[verifier::reject_recursive_types(O)]
pub struct ExFileDicomObject<O>(dicom::object::FileDicomObject<O>);

#[verifier::external_type_specification]
#[verifier::external_body]
#[verifier::reject_recursive_types(D)]
pub struct ExInMemDicomObject<D>(dicom::object::InMemDicomObject<D>);

#[verifier::external_type_specification]
#[verifier::external_body]
pub struct ExStandardDataDictionary(dicom::object::StandardDataDictionary);

#[verifier::external_type_specification]
#[verifier::external_body]
#[verifier::reject_recursive_types(I)]
#[verifier::reject_recursive_types(P)]
pub struct ExDataElement<I, P>(dicom::core::DataElement<I, P>);

/// The name of an element and its tag, as group and element number.
#[derive(Debug)]
pub struct FieldNameAndTag(pub String, pub (u16, u16));

/// The elements that identify a patient.
#[derive(Clone, Copy, PartialEq, Eq, Structural, Debug)]
pub enum DicomFileField {
    PersonName,
    PatientId,
}

impl DicomFileField {
    /// The name under which the element is reported.
    pub open spec fn name(self) -> Seq<char> {
        match self {
            DicomFileField::PersonName => "PersonName"@,
            DicomFileField::PatientId => "PatientID"@,
        }
    }

    /// The standard tag of the element.
    pub open spec fn tag(self) -> (u16, u16) {
        match self {
            DicomFileField::PersonName => (0x0010u16, 0x0010u16),
            DicomFileField::PatientId => (0x0010u16, 0x0020u16),
        }
    }

    /// The element's name and tag.
    pub fn value(&self) -> (field: FieldNameAndTag)
        ensures
            field.0@ == self.name(),
            field.1 == self.tag(),
    {
        match *self {
            DicomFileField::PersonName => FieldNameAndTag(
                "PersonName".to_string(),
                (0x0010, 0x0010),
            ),
            DicomFileField::PatientId => FieldNameAndTag("PatientID".to_string(), (0x0010, 0x0020)),
        }
    }
}

/// The elements of an opened file by tag: for each the bytes of its value,
/// or `None` where the value is not primitive.
pub uninterp spec fn file_elements(file: dicom::object::FileDicomObject<dicom::object::InMemDicomObject<dicom::object::StandardDataDictionary>>) -> Map<(u16, u16), Option<Seq<u8>>>;

/// The bytes of an element's value, or `None` where the value is not
/// primitive.
pub uninterp spec fn element_bytes(element: dicom::core::DataElement<dicom::object::InMemDicomObject<dicom::object::StandardDataDictionary>, Vec<u8>>) -> Option<Seq<u8>>;

/// The method `element` of `InMemDicomObject`: the element with the given tag, or a failure
/// where the file holds none.
#[verifier::external_body]
fn find_element(file: &dicom::object::FileDicomObject<dicom::object::InMemDicomObject<dicom::object::StandardDataDictionary>>, group: u16, element: u16) -> (found: Result<
    &dicom::core::DataElement<dicom::object::InMemDicomObject<dicom::object::StandardDataDictionary>, Vec<u8>>,
    dicom::object::AccessError,
>)
    ensures
        match found {
            Ok(held) => {
                &&& file_elements(*file).dom().contains((group, element))
                &&& element_bytes(*held) == file_elements(*file)[(group, element)]
            },
            Err(_) => !file_elements(*file).dom().contains((group, element)),
        },
{
    file.element(dicom::core::Tag(group, element))
}

/// `DataElement::to_bytes`: the bytes of a primitive value, or a failure
/// where the value is not primitive.
#[verifier::external_body]
fn element_to_bytes(element: &dicom::core::DataElement<dicom::object::InMemDicomObject<dicom::object::StandardDataDictionary>, Vec<u8>>) -> (bytes: Result<
    Vec<u8>,
    dicom::core::value::ConvertValueError,
>)
    ensures
        match bytes {
            Ok(bytes) => element_bytes(*element) == Some(bytes@),
            Err(_) => element_bytes(*element) is None,
        },
{
    element.to_bytes().map(|bytes| bytes.into_owned())
}

/// `std::str::from_utf8`: the text that the bytes encode, or a failure where
/// they are not UTF-8.
#[verifier::external_body]
fn text_from_utf8(bytes: &Vec<u8>) -> (text: Result<String, core::str::Utf8Error>)
    ensures
        match text {
            Ok(text) => valid_utf8(bytes@) && text@ == decode_utf8(bytes@),
            Err(_) => !valid_utf8(bytes@),
        },
{
    std::str::from_utf8(bytes).map(|text| text.to_string())
}

/// What reading one element as text comes to.
pub enum Reading {
    /// The file has no such element.
    Missing,
    /// The element's value is not primitive.
    NotPrimitive,
    /// The value's bytes are not UTF-8.
    NotText,
    /// The value as text.
    Text(Seq<char>),
}

/// Reading the element `tag` of a file with the given elements.
pub open spec fn reading(elements: Map<(u16, u16), Option<Seq<u8>>>, tag: (u16, u16)) -> Reading {
    if !elements.dom().contains(tag) {
        Reading::Missing
    } else {
        match elements[tag] {
            None => Reading::NotPrimitive,
            Some(bytes) => if valid_utf8(bytes) {
                Reading::Text(decode_utf8(bytes))
            } else {
                Reading::NotText
            },
        }
    }
}

/// The result `read` reports the reading `outcome` of `field`: the text, or
/// the error of its kind, which names the field.
pub open spec fn reports(
    read: Result<String, Box<DicomError>>,
    field: DicomFileField,
    outcome: Reading,
) -> bool {
    match outcome {
        Reading::Text(text) => read matches Ok(value) && value@ == text,
        Reading::Missing => read matches Err(error) && *error matches DicomError::GetElement(
            name,
            _,
        ) && name@ == field.name(),
        Reading::NotPrimitive => read matches Err(error)
            && *error matches DicomError::GetElementBytes(name, _) && name@ == field.name(),
        Reading::NotText => read matches Err(error) && *error matches DicomError::ToString(
            name,
            _,
        ) && name@ == field.name(),
    }
}

/// Reads the element `field` of an opened file as text.
pub fn read_element_string_value(file: &dicom::object::FileDicomObject<dicom::object::InMemDicomObject<dicom::object::StandardDataDictionary>>, field: DicomFileField) -> (read: Result<
    String,
    Box<DicomError>,
>)
    ensures
        reports(read, field, reading(file_elements(*file), field.tag())),
{
    let tag = field.value().1;
    let element = match find_element(file, tag.0, tag.1) {
        Ok(element) => element,
        Err(error) => {
            return Err(Box::new(DicomError::GetElement(field.value().0, error)));
        },
    };
    let bytes = match element_to_bytes(element) {
        Ok(bytes) => bytes,
        Err(error) => {
            return Err(Box::new(DicomError::GetElementBytes(field.value().0, error)));
        },
    };
    match text_from_utf8(&bytes) {
        Ok(text) => Ok(text),
        Err(error) => Err(Box::new(DicomError::ToString(field.value().0, error))),
    }
}

/// What the extraction of a file comes to, as the readings of its two
/// fields: the identifier is read first, and the first failure ends it.
pub open spec fn extracts(
    extraction: Result<DicomInfo, Box<DicomError>>,
    elements: Map<(u16, u16), Option<Seq<u8>>>,
) -> bool {
    let id = reading(elements, DicomFileField::PatientId.tag());
    let name = reading(elements, DicomFileField::PersonName.tag());
    match (id, name) {
        (Reading::Text(id), Reading::Text(name)) => extraction matches Ok(info) && info.patient_id@
            == id && info.person_name@ == name,
        (Reading::Text(_), failed) => extraction matches Err(error) && reports(
            Err(error),
            DicomFileField::PersonName,
            failed,
        ),
        (failed, _) => extraction matches Err(error) && reports(
            Err(error),
            DicomFileField::PatientId,
            failed,
        ),
    }
}

/// Extracts the identifying fields of the file at `file`, which the caller
/// tried to open with the outcome `opened`.
///
/// A file that could not be opened gives `OpenFile` with its path.
pub fn read_dicom_file(file: &String, opened: Result<dicom::object::FileDicomObject<dicom::object::InMemDicomObject<dicom::object::StandardDataDictionary>>, dicom::object::ReadError>) -> (
    extraction: Result<DicomInfo, Box<DicomError>>)
    ensures
        match opened {
            Ok(content) => extracts(extraction, file_elements(content)),
            Err(_) => extraction matches Err(error) && *error matches DicomError::OpenFile(path, _)
                && path@ == file@,
        },
{
    let content = match opened {
        Ok(content) => content,
        Err(error) => {
            return Err(Box::new(DicomError::OpenFile(file.clone(), error)));
        },
    };
    let patient_id = match read_element_string_value(&content, DicomFileField::PatientId) {
        Ok(text) => text,
        Err(error) => {
            return Err(error);
        },
    };
    let person_name = match read_element_string_value(&content, DicomFileField::PersonName) {
        Ok(text) => text,
        Err(error) => {
            return Err(error);
        },
    };
    Ok(DicomInfo { person_name, patient_id })
}

} // verus!

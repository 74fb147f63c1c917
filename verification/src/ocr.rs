//! Planning the recognition of a document.
//!
//! The document is fetched into a working directory and handed to
//! `ocrmypdf`, which writes a searchable PDF and a text file beside it. This
//! module works out the paths and the command line; fetching the file and
//! running the program is left to the caller.

use vstd::prelude::*;
use vstd::string::{StrSliceExecFns, StringExecFns};

use crate::message::Payload;
use crate::path::{
    file_name_of, joined, path_file_name, path_join, path_with_extension, with_extension,
};

verus! {

/// Whether `c` is one of `a`–`z`.
pub open spec fn is_lower_letter(c: char) -> bool {
    'a' <= c && c <= 'z'
}

/// The language that a file name ends with: the three lowercase letters
/// between two dots in a name that ends in `.xyz.pdf`.
pub open spec fn language_suffix(name: Seq<char>) -> Option<Seq<char>> {
    let n = name.len() as int;
    if n >= 8 && name[n - 8] == '.' && is_lower_letter(name[n - 7]) && is_lower_letter(name[n - 6])
        && is_lower_letter(name[n - 5]) && name[n - 4] == '.' && name[n - 3] == 'p' && name[n
        - 2] == 'd' && name[n - 1] == 'f' {
        Some(name.subrange(n - 7, n - 4))
    } else {
        None
    }
}

/// The language of the document at `path`, as its file name tells it.
pub open spec fn language_spec(path: Seq<char>) -> Option<Seq<char>> {
    match file_name_of(path) {
        Some(name) => language_suffix(name),
        None => None,
    }
}

/// The language that `name` ends with, if it ends in `.xyz.pdf` with three
/// lowercase letters `xyz`.
pub fn language_of(name: &str) -> (language: Option<String>)
    ensures
        language.deep_view() == language_suffix(name@),
{
    let n = name.unicode_len();
    if n < 8 {
        return None;
    }
    let a = name.get_char(n - 7);
    let b = name.get_char(n - 6);
    let c = name.get_char(n - 5);
    if name.get_char(n - 8) == '.' && 'a' <= a && a <= 'z' && 'a' <= b && b <= 'z' && 'a' <= c && c
        <= 'z' && name.get_char(n - 4) == '.' && name.get_char(n - 3) == 'p' && name.get_char(n - 2)
        == 'd' && name.get_char(n - 1) == 'f' {
        Some(String::from_str(name.substring_char(n - 7, n - 4)))
    } else {
        None
    }
}

/// The language of the document at `path`, as its file name tells it.
pub fn get_language_from_file(path: &str) -> (language: Option<String>)
    ensures
        language.deep_view() == language_spec(path@),
{
    match path_file_name(path) {
        Some(name) => language_of(name.as_str()),
        None => None,
    }
}

/// One run of `ocrmypdf`.
#[derive(Debug, PartialEq, Eq)]
pub struct OcrPlan {
    /// The arguments of the program, in order.
    pub arguments: Vec<String>,
    /// Where the searchable PDF will be.
    pub ocred_pdf: String,
    /// Where the recognised text will be.
    pub sidecar_file: String,
}

/// The language that a document is recognised in: the one that its file
/// name tells, or English.
pub open spec fn language_or_english(name: Seq<char>) -> Seq<char> {
    match language_suffix(name) {
        Some(language) => language,
        None => "eng"@,
    }
}

impl OcrPlan {
    /// Whether `self` is the run that recognises the document `pdf_path`,
    /// whose file name is `name`, into the directory `output_path`.
    pub open spec fn recognises(
        &self,
        output_path: Seq<char>,
        pdf_path: Seq<char>,
        name: Seq<char>,
    ) -> bool {
        &&& self.ocred_pdf@ == joined(output_path, name)
        &&& self.sidecar_file@ == joined(output_path, with_extension(name, "txt"@))
        &&& self.arguments.deep_view() == seq![
            "-l"@,
            language_or_english(name),
            "--force-ocr"@,
            pdf_path,
            "--sidecar"@,
            self.sidecar_file@,
            self.ocred_pdf@,
        ]
    }

    /// The files that a successful run leaves: the PDF, then the text.
    pub fn outputs(&self) -> (files: Vec<String>)
        ensures
            files.deep_view() == seq![self.ocred_pdf@, self.sidecar_file@],
    {
        let mut files: Vec<String> = Vec::new();
        files.push(self.ocred_pdf.clone());
        files.push(self.sidecar_file.clone());
        proof {
            assert(files.deep_view() =~= seq![self.ocred_pdf@, self.sidecar_file@]);
        }
        files
    }
}

/// Plans the recognition of the document `pdf_path`, whose file name is
/// `name`, into the directory `output_path`.
///
/// The PDF keeps the name of the document, the text gets the same name with
/// the extension `txt`, and the language is the one that the name tells, or
/// English.
pub fn plan_ocr(output_path: &str, pdf_path: &str, name: &str) -> (plan: OcrPlan)
    ensures
        plan.recognises(output_path@, pdf_path@, name@),
{
    let ocred_pdf = path_join(output_path, name);
    proof {
        reveal_strlit("txt");
    }
    let sidecar_name = path_with_extension(name, "txt");
    let sidecar_file = path_join(output_path, sidecar_name.as_str());
    let language = match language_of(name) {
        Some(language) => language,
        None => String::from_str("eng"),
    };
    let mut arguments: Vec<String> = Vec::new();
    arguments.push(String::from_str("-l"));
    arguments.push(language);
    arguments.push(String::from_str("--force-ocr"));
    arguments.push(String::from_str(pdf_path));
    arguments.push(String::from_str("--sidecar"));
    arguments.push(sidecar_file.clone());
    arguments.push(ocred_pdf.clone());
    proof {
        assert(arguments.deep_view() =~= seq![
            "-l"@,
            language_or_english(name@),
            "--force-ocr"@,
            pdf_path@,
            "--sidecar"@,
            sidecar_file@,
            ocred_pdf@,
        ]);
    }
    OcrPlan { arguments, ocred_pdf, sidecar_file }
}

/// Plans the recognition of the document `pdf_path` into the directory
/// `output_path`. There is no plan for a path that names no file.
pub fn process_file(output_path: &str, pdf_path: &str) -> (plan: Option<OcrPlan>)
    ensures
        match file_name_of(pdf_path@) {
            Some(name) => plan matches Some(plan) && plan.recognises(
                output_path@,
                pdf_path@,
                name,
            ),
            None => plan is None,
        },
{
    match path_file_name(pdf_path) {
        Some(name) => Some(plan_ocr(output_path, pdf_path, name.as_str())),
        None => None,
    }
}

/// What is to be done with the document of a job.
#[derive(Debug, PartialEq, Eq)]
pub struct InputPlan {
    /// Where the fetched document is written.
    pub origin_file_path: String,
    /// The directory for the results, to be created.
    pub output_path: String,
    /// The recognition itself; `None` where the job names no file.
    pub ocr: Option<OcrPlan>,
}

/// Plans the work on the document of `payload` in the directory
/// `working_dir`: the document is written there under the file name of the
/// payload, and recognised into the subdirectory `ocr`.
pub fn process_input(working_dir: &str, payload: &Payload) -> (plan: InputPlan)
    ensures
        plan.origin_file_path@ == joined(working_dir@, payload.filename@),
        plan.output_path@ == joined(working_dir@, "ocr"@),
        match file_name_of(plan.origin_file_path@) {
            Some(name) => plan.ocr matches Some(ocr) && ocr.recognises(
                plan.output_path@,
                plan.origin_file_path@,
                name,
            ),
            None => plan.ocr is None,
        },
{
    let origin_file_path = path_join(working_dir, payload.filename.as_str());
    let output_path = path_join(working_dir, "ocr");
    let ocr = process_file(output_path.as_str(), origin_file_path.as_str());
    InputPlan { origin_file_path, output_path, ocr }
}

} // verus!

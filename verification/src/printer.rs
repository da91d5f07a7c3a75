//! The print dispatcher.
//!
//! It runs no process and touches no file. It prepares each step of a
//! submission, hands the host the command to run, and decides from what the
//! command left behind what the client is told.

use crate::api::PrintRequest;
use crate::api::PrintRequestView;
use crate::api::PrintResponse;
use crate::api::PrintResponseView;
use crate::codec::base64_decoding;
use crate::codec::decode_standard;
use crate::codec::encode_standard;
use crate::codec::lossy_text;
use crate::codec::utf8_lossy;
use crate::config::Config;
use crate::config::ConfigView;
use crate::error::BridgeError;
use crate::error::ErrorView;
use crate::pattern::capture_groups;
use crate::pattern::regex_groups;
use crate::text::decimal;
use crate::text::decimal_text;
use crate::text::occurs_in;
use vstd::prelude::*;
use vstd::utf8::decode_utf8;
use vstd::utf8::encode_utf8;
use vstd::utf8::valid_utf8;

verus! {

/// Entry point of print dispatch and printer discovery.
pub struct PrinterManager;

/// A command for the host to run, with its arguments in order.
#[derive(Debug, Clone, PartialEq, Eq)]
pub struct Invocation {
    pub program: String,
    pub args: Vec<String>,
}

/// The mathematical value of an [`Invocation`].
pub struct InvocationView {
    pub program: Seq<char>,
    pub args: Seq<Seq<char>>,
}

impl View for Invocation {
    type V = InvocationView;

    open spec fn view(&self) -> InvocationView {
        InvocationView { program: self.program@, args: self.args.deep_view() }
    }
}

/// What a finished process leaves behind: whether its exit status was
/// success, and what it wrote to its two streams.
#[derive(Debug, Clone, PartialEq, Eq)]
pub struct ProcessOutput {
    pub success: bool,
    pub stdout: Vec<u8>,
    pub stderr: Vec<u8>,
}

/// The formats that go to the spooler as a file.
#[derive(Debug, Clone, Copy, PartialEq, Eq)]
pub enum SpoolKind {
    Pdf,
    Text,
    Image,
}

/// A file to hand to the spooler: `data` is written to a transient file,
/// which is printed `copies` times on `printer`.
#[derive(Debug, Clone, PartialEq, Eq)]
pub struct SpoolJob {
    pub kind: SpoolKind,
    pub printer: String,
    pub copies: u32,
    pub data: Vec<u8>,
}

/// The mathematical value of a [`SpoolJob`].
pub struct SpoolJobView {
    pub kind: SpoolKind,
    pub printer: Seq<char>,
    pub copies: u32,
    pub data: Seq<u8>,
}

impl View for SpoolJob {
    type V = SpoolJobView;

    open spec fn view(&self) -> SpoolJobView {
        SpoolJobView {
            kind: self.kind,
            printer: self.printer@,
            copies: self.copies,
            data: self.data@,
        }
    }
}

/// An HTML document to turn into a PDF before it is printed.
#[derive(Debug, Clone, PartialEq, Eq)]
pub struct ConvertJob {
    pub printer: String,
    pub copies: Option<u32>,
    pub html: Vec<u8>,
}

/// The mathematical value of a [`ConvertJob`].
pub struct ConvertJobView {
    pub printer: Seq<char>,
    pub copies: Option<u32>,
    pub html: Seq<u8>,
}

impl View for ConvertJob {
    type V = ConvertJobView;

    open spec fn view(&self) -> ConvertJobView {
        ConvertJobView { printer: self.printer@, copies: self.copies, html: self.html@ }
    }
}

/// The first step of a submission.
#[derive(Debug, Clone, PartialEq, Eq)]
pub enum PrintJob {
    Spool(SpoolJob),
    Convert(ConvertJob),
}

/// The mathematical value of a [`PrintJob`].
pub enum PrintJobView {
    Spool(SpoolJobView),
    Convert(ConvertJobView),
}

impl View for PrintJob {
    type V = PrintJobView;

    open spec fn view(&self) -> PrintJobView {
        match self {
            PrintJob::Spool(job) => PrintJobView::Spool(job@),
            PrintJob::Convert(job) => PrintJobView::Convert(job@),
        }
    }
}

/// What follows the conversion of an HTML document.
#[derive(Debug, Clone, PartialEq, Eq)]
pub enum ConvertStep {
    /// The PDF was produced: it is read and handed to
    /// [`ConvertJob::converted`].
    Print,
    /// The conversion failed: the document is opened in the browser with
    /// `open`, and `response` is the answer, without a job identifier.
    Fallback { open: Invocation, response: PrintResponse },
}

/// The printer a job goes to: the one the request names, else the
/// configured default, else `default`, which the spooler resolves itself.
pub open spec fn target_printer(
    requested: Option<Seq<char>>,
    configured: Option<Seq<char>>,
) -> Seq<char> {
    match requested {
        Some(name) => name,
        None => match configured {
            Some(name) => name,
            None => "default"@,
        },
    }
}

/// The number of copies a job asks for: one unless the request says more.
pub open spec fn copies_or_one(copies: Option<u32>) -> u32 {
    match copies {
        Some(n) => n,
        None => 1,
    }
}

/// The job for a base64 payload of kind `kind`, or the failure to decode it.
pub open spec fn decoded_job(
    kind: SpoolKind,
    printer: Seq<char>,
    content: Seq<char>,
    copies: Option<u32>,
) -> Result<SpoolJobView, ErrorView> {
    match base64_decoding(content) {
        Ok(data) => Ok(SpoolJobView { kind, printer, copies: copies_or_one(copies), data }),
        Err(reason) => Err(ErrorView::Base64Error(reason)),
    }
}

/// The job for a plain-text payload: its UTF-8 bytes.
pub open spec fn text_job(
    printer: Seq<char>,
    content: Seq<char>,
    copies: Option<u32>,
) -> SpoolJobView {
    SpoolJobView {
        kind: SpoolKind::Text,
        printer,
        copies: copies_or_one(copies),
        data: encode_utf8(content),
    }
}

/// Whether a content type has a pipeline: it is one of the four tags.
pub open spec fn has_pipeline(content_type: Seq<char>) -> bool {
    content_type == "pdf"@ || content_type == "html"@ || content_type == "text"@ || content_type
        == "image"@
}

/// The first step of a submission: the pipeline is chosen by the content
/// type, and a type that has no pipeline is refused.
pub open spec fn planned(request: PrintRequestView, config: ConfigView) -> Result<
    PrintJobView,
    ErrorView,
> {
    let printer = target_printer(request.printer_name, config.default_printer);
    if request.content_type == "pdf"@ {
        match decoded_job(SpoolKind::Pdf, printer, request.content, request.copies) {
            Ok(job) => Ok(PrintJobView::Spool(job)),
            Err(e) => Err(e),
        }
    } else if request.content_type == "html"@ {
        Ok(
            PrintJobView::Convert(
                ConvertJobView {
                    printer,
                    copies: request.copies,
                    html: encode_utf8(request.content),
                },
            ),
        )
    } else if request.content_type == "text"@ {
        Ok(PrintJobView::Spool(text_job(printer, request.content, request.copies)))
    } else if request.content_type == "image"@ {
        match decoded_job(SpoolKind::Image, printer, request.content, request.copies) {
            Ok(job) => Ok(PrintJobView::Spool(job)),
            Err(e) => Err(e),
        }
    } else {
        Err(ErrorView::UnsupportedFormat(request.content_type))
    }
}

/// The suffix of the transient file of a job.
pub open spec fn spool_suffix(kind: SpoolKind) -> Seq<char> {
    match kind {
        SpoolKind::Pdf => ""@,
        SpoolKind::Text => ".txt"@,
        SpoolKind::Image => ".png"@,
    }
}

/// The spooler command for a job whose file is at `path`.
pub open spec fn spool_command(job: SpoolJobView, path: Seq<char>) -> InvocationView {
    InvocationView {
        program: "lp"@,
        args: seq!["-d"@, job.printer, "-n"@, decimal(job.copies as nat), path],
    }
}

/// The words that tell the client that a job of kind `kind` reached the
/// spooler.
pub open spec fn success_message(kind: SpoolKind) -> Seq<char> {
    match kind {
        SpoolKind::Pdf => "PDF enviado a impresora exitosamente"@,
        SpoolKind::Text => "Texto enviado a impresora exitosamente"@,
        SpoolKind::Image => "Imagen enviada a impresora exitosamente"@,
    }
}

/// What the client is told once the spooler has answered. On success the
/// job identifier is the one in the spooler's answer, for every kind of
/// job, and absent where the answer holds none; on failure the spooler's
/// error text is handed on.
pub open spec fn spool_outcome(
    kind: SpoolKind,
    success: bool,
    stdout: Seq<u8>,
    stderr: Seq<u8>,
) -> Result<PrintResponseView, ErrorView> {
    if success {
        Ok(
            PrintResponseView {
                success: true,
                message: success_message(kind),
                job_id: job_id_in(utf8_lossy(stdout)),
            },
        )
    } else {
        Err(ErrorView::PrintError(utf8_lossy(stderr)))
    }
}

/// The conversion command: A4 pages with margins of 0.75in on all sides.
pub open spec fn convert_command(html_path: Seq<char>, pdf_path: Seq<char>) -> InvocationView {
    InvocationView {
        program: "wkhtmltopdf"@,
        args: seq![
            "--page-size"@,
            "A4"@,
            "--margin-top"@,
            "0.75in"@,
            "--margin-right"@,
            "0.75in"@,
            "--margin-bottom"@,
            "0.75in"@,
            "--margin-left"@,
            "0.75in"@,
            html_path,
            pdf_path,
        ],
    }
}

/// The command that opens a document in the browser.
pub open spec fn browser_command(html_path: Seq<char>) -> InvocationView {
    InvocationView { program: "open"@, args: seq!["-a"@, "Safari"@, html_path] }
}

/// The answer when a document was opened in the browser instead.
pub open spec fn fallback_response() -> PrintResponseView {
    PrintResponseView {
        success: true,
        message: "HTML convertido y enviado a impresora"@,
        job_id: None,
    }
}

/// Whether `bytes` is short enough for its base64 encoding to have a
/// length.
pub open spec fn encodable(bytes: Seq<u8>) -> bool {
    4 * (bytes.len() / 3) + 4 <= usize::MAX
}

/// The regular expression whose first group is the job identifier in the
/// spooler's answer.
pub open spec fn job_pattern() -> Seq<char> {
    r"request id is ([^\s]+)"@
}

/// The job identifier in the spooler's answer: the first group of the first
/// match of the job pattern.
pub open spec fn job_id_in(text: Seq<char>) -> Option<Seq<char>> {
    match regex_groups(job_pattern(), text, 1) {
        Some(found) => first_group(found),
        None => None,
    }
}

/// The group of the first match, where there is a match and the group took
/// part in it.
pub open spec fn first_group(found: Seq<Option<Seq<char>>>) -> Option<Seq<char>> {
    if found.len() > 0 {
        found[0]
    } else {
        None
    }
}

/// The group of the first match, if any.
pub fn take_first_group(found: &Vec<Option<String>>) -> (id: Option<String>)
    ensures
        id.deep_view() == first_group(found.deep_view()),
{
    if found.len() > 0 {
        match &found[0] {
            Some(text) => Some(text.clone()),
            None => None,
        }
    } else {
        None
    }
}

impl PrinterManager {
    /// The printer a job goes to.
    pub fn select_printer(requested: Option<String>, configured: &Option<String>) -> (name: String)
        ensures
            name@ == target_printer(requested.deep_view(), configured.deep_view()),
    {
        match requested {
            Some(name) => name,
            None => match configured {
                Some(name) => name.clone(),
                None => String::from_str("default"),
            },
        }
    }

    /// Begins a submission: picks the printer and the pipeline of the
    /// request's content type, and prepares the first step.
    pub fn print(request: PrintRequest, config: &Config) -> (r: Result<PrintJob, BridgeError>)
        ensures
            match r {
                Ok(job) => planned(request@, config@) == Ok::<PrintJobView, ErrorView>(job@),
                Err(e) => planned(request@, config@) == Err::<PrintJobView, ErrorView>(e@),
            },
    {
        let PrintRequest { printer_name, content, content_type, copies, options: _ } = request;
        let printer = Self::select_printer(printer_name, &config.default_printer);
        if content_type == String::from_str("pdf") {
            match Self::print_pdf(printer.as_str(), content.as_str(), copies) {
                Ok(job) => Ok(PrintJob::Spool(job)),
                Err(e) => Err(e),
            }
        } else if content_type == String::from_str("html") {
            Ok(PrintJob::Convert(Self::print_html(printer.as_str(), content.as_str(), copies)))
        } else if content_type == String::from_str("text") {
            Ok(PrintJob::Spool(Self::print_text(printer.as_str(), content.as_str(), copies)))
        } else if content_type == String::from_str("image") {
            match Self::print_image(printer.as_str(), content.as_str(), copies) {
                Ok(job) => Ok(PrintJob::Spool(job)),
                Err(e) => Err(e),
            }
        } else {
            Err(BridgeError::UnsupportedFormat(content_type))
        }
    }

    /// The PDF pipeline: the payload is base64; its bytes go to the spooler.
    pub fn print_pdf(printer: &str, content: &str, copies: Option<u32>) -> (r: Result<
        SpoolJob,
        BridgeError,
    >)
        ensures
            match r {
                Ok(job) => decoded_job(SpoolKind::Pdf, printer@, content@, copies) == Ok::<
                    SpoolJobView,
                    ErrorView,
                >(job@),
                Err(e) => decoded_job(SpoolKind::Pdf, printer@, content@, copies) == Err::<
                    SpoolJobView,
                    ErrorView,
                >(e@),
            },
    {
        match decode_standard(content) {
            Ok(data) => Ok(
                SpoolJob {
                    kind: SpoolKind::Pdf,
                    printer: String::from_str(printer),
                    copies: copies.unwrap_or(1),
                    data,
                },
            ),
            Err(reason) => Err(BridgeError::Base64Error(reason)),
        }
    }

    /// The HTML pipeline: the document is converted to a PDF first.
    pub fn print_html(printer: &str, content: &str, copies: Option<u32>) -> (job: ConvertJob)
        ensures
            job@ == (ConvertJobView { printer: printer@, copies, html: encode_utf8(content@) }),
    {
        ConvertJob { printer: String::from_str(printer), copies, html: content.as_bytes_vec() }
    }

    /// The text pipeline: the UTF-8 bytes of the payload go to the spooler.
    pub fn print_text(printer: &str, content: &str, copies: Option<u32>) -> (job: SpoolJob)
        ensures
            job@ == text_job(printer@, content@, copies),
    {
        SpoolJob {
            kind: SpoolKind::Text,
            printer: String::from_str(printer),
            copies: copies.unwrap_or(1),
            data: content.as_bytes_vec(),
        }
    }

    /// The image pipeline: the payload is base64; its bytes go to the
    /// spooler.
    pub fn print_image(printer: &str, content: &str, copies: Option<u32>) -> (r: Result<
        SpoolJob,
        BridgeError,
    >)
        ensures
            match r {
                Ok(job) => decoded_job(SpoolKind::Image, printer@, content@, copies) == Ok::<
                    SpoolJobView,
                    ErrorView,
                >(job@),
                Err(e) => decoded_job(SpoolKind::Image, printer@, content@, copies) == Err::<
                    SpoolJobView,
                    ErrorView,
                >(e@),
            },
    {
        match decode_standard(content) {
            Ok(data) => Ok(
                SpoolJob {
                    kind: SpoolKind::Image,
                    printer: String::from_str(printer),
                    copies: copies.unwrap_or(1),
                    data,
                },
            ),
            Err(reason) => Err(BridgeError::Base64Error(reason)),
        }
    }

    /// The job identifier in the spooler's answer to a submission; where
    /// there is one, it is a piece of the decoded answer. An answer that is
    /// valid UTF-8 is read as the text it encodes.
    pub fn extract_job_id(lp_output: &[u8]) -> (id: Option<String>)
        ensures
            id.deep_view() == job_id_in(utf8_lossy(lp_output@)),
            valid_utf8(lp_output@) ==> utf8_lossy(lp_output@) == decode_utf8(lp_output@),
            match id {
                Some(found) => occurs_in(utf8_lossy(lp_output@), found@),
                None => true,
            },
    {
        let text = lossy_text(lp_output);
        match capture_groups(r"request id is ([^\s]+)", text.as_str(), 1) {
            Ok(found) => {
                let id = take_first_group(&found);
                assert(id is Some ==> id.deep_view() == found.deep_view()[0]);
                id
            },
            Err(_) => None,
        }
    }
}

impl SpoolJob {
    /// The suffix to give the transient file.
    pub fn file_suffix(&self) -> (suffix: String)
        ensures
            suffix@ == spool_suffix(self.kind),
    {
        match self.kind {
            SpoolKind::Pdf => String::from_str(""),
            SpoolKind::Text => String::from_str(".txt"),
            SpoolKind::Image => String::from_str(".png"),
        }
    }

    /// The spooler command to run once the data is in the file at `path`.
    pub fn command(&self, path: &str) -> (call: Invocation)
        ensures
            call@ == spool_command(self@, path@),
    {
        let mut args: Vec<String> = Vec::new();
        args.push(String::from_str("-d"));
        args.push(self.printer.clone());
        args.push(String::from_str("-n"));
        args.push(decimal_text(self.copies as u64));
        args.push(String::from_str(path));
        assert(args.deep_view() =~= spool_command(self@, path@).args);
        Invocation { program: String::from_str("lp"), args }
    }

    /// What the client is told once the spooler command has finished: on
    /// success the message of the job's kind and the job identifier that
    /// the spooler gave, else the spooler's error text as a print error.
    /// The stream that is read, if valid UTF-8, is read as the text it
    /// encodes.
    pub fn finish(&self, output: &ProcessOutput) -> (r: Result<PrintResponse, BridgeError>)
        ensures
            match r {
                Ok(response) => spool_outcome(
                    self.kind,
                    output.success,
                    output.stdout@,
                    output.stderr@,
                ) == Ok::<PrintResponseView, ErrorView>(response@),
                Err(e) => spool_outcome(self.kind, output.success, output.stdout@, output.stderr@)
                    == Err::<PrintResponseView, ErrorView>(e@),
            },
            output.success && valid_utf8(output.stdout@) ==> utf8_lossy(output.stdout@)
                == decode_utf8(output.stdout@),
            !output.success && valid_utf8(output.stderr@) ==> utf8_lossy(output.stderr@)
                == decode_utf8(output.stderr@),
    {
        if output.success {
            let message = match self.kind {
                SpoolKind::Pdf => String::from_str("PDF enviado a impresora exitosamente"),
                SpoolKind::Text => String::from_str("Texto enviado a impresora exitosamente"),
                SpoolKind::Image => String::from_str("Imagen enviada a impresora exitosamente"),
            };
            Ok(
                PrintResponse {
                    success: true,
                    message,
                    job_id: PrinterManager::extract_job_id(output.stdout.as_slice()),
                },
            )
        } else {
            Err(BridgeError::PrintError(lossy_text(output.stderr.as_slice())))
        }
    }
}

impl ConvertJob {
    /// The suffix of the transient file that holds the document.
    pub fn html_suffix() -> (suffix: String)
        ensures
            suffix@ == ".html"@,
    {
        String::from_str(".html")
    }

    /// The suffix of the transient file that receives the PDF.
    pub fn pdf_suffix() -> (suffix: String)
        ensures
            suffix@ == ".pdf"@,
    {
        String::from_str(".pdf")
    }

    /// The conversion command, from the document at `html_path` to a PDF at
    /// `pdf_path`.
    pub fn command(&self, html_path: &str, pdf_path: &str) -> (call: Invocation)
        ensures
            call@ == convert_command(html_path@, pdf_path@),
    {
        let mut args: Vec<String> = Vec::new();
        args.push(String::from_str("--page-size"));
        args.push(String::from_str("A4"));
        args.push(String::from_str("--margin-top"));
        args.push(String::from_str("0.75in"));
        args.push(String::from_str("--margin-right"));
        args.push(String::from_str("0.75in"));
        args.push(String::from_str("--margin-bottom"));
        args.push(String::from_str("0.75in"));
        args.push(String::from_str("--margin-left"));
        args.push(String::from_str("0.75in"));
        args.push(String::from_str(html_path));
        args.push(String::from_str(pdf_path));
        assert(args.deep_view() =~= convert_command(html_path@, pdf_path@).args);
        Invocation { program: String::from_str("wkhtmltopdf"), args }
    }

    /// What follows the conversion command: printing where it succeeded,
    /// else the browser and an answer without a job identifier.
    pub fn after_conversion(&self, output: &ProcessOutput, html_path: &str) -> (step: ConvertStep)
        ensures
            match step {
                ConvertStep::Print => output.success,
                ConvertStep::Fallback { open, response } => {
                    &&& !output.success
                    &&& open@ == browser_command(html_path@)
                    &&& response@ == fallback_response()
                },
            },
    {
        if output.success {
            ConvertStep::Print
        } else {
            let mut args: Vec<String> = Vec::new();
            args.push(String::from_str("-a"));
            args.push(String::from_str("Safari"));
            args.push(String::from_str(html_path));
            assert(args.deep_view() =~= browser_command(html_path@).args);
            ConvertStep::Fallback {
                open: Invocation { program: String::from_str("open"), args },
                response: PrintResponse {
                    success: true,
                    message: String::from_str("HTML convertido y enviado a impresora"),
                    job_id: None,
                },
            }
        }
    }

    /// Sends the PDF that the conversion produced through the PDF pipeline:
    /// it is encoded as base64 and submitted like a PDF payload, so the
    /// bytes that reach the spooler are the bytes of `pdf`. A PDF too long
    /// to encode is refused as too large.
    pub fn converted(&self, pdf: &[u8]) -> (r: Result<SpoolJob, BridgeError>)
        ensures
            match r {
                Ok(job) => {
                    &&& encodable(pdf@)
                    &&& job.kind == SpoolKind::Pdf
                    &&& job.printer@ == self.printer@
                    &&& job.copies == copies_or_one(self.copies)
                    &&& job.data@ == pdf@
                },
                Err(e) => !encodable(pdf@) && e@ == ErrorView::FileTooLarge,
            },
    {
        if pdf.len() / 3 > (usize::MAX - 4) / 4 {
            return Err(BridgeError::FileTooLarge);
        }
        let encoded = encode_standard(pdf);
        PrinterManager::print_pdf(self.printer.as_str(), encoded.as_str(), self.copies)
    }
}

} // verus!

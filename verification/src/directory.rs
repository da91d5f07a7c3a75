//! The printer directory.
//!
//! It runs no process. A discovery hands the host one spooler query after
//! the other and reads the installed printers, their status and their
//! capabilities out of what the queries print.

use crate::api::PrinterInfo;
use crate::api::PrinterInfoView;
use crate::codec::lossy_text;
use crate::codec::utf8_lossy;
use crate::pattern::capture_groups;
use crate::pattern::regex_groups;
use crate::printer::Invocation;
use crate::printer::InvocationView;
use crate::printer::PrinterManager;
use crate::text::after_char;
use crate::text::after_prefix;
use crate::text::contains;
use crate::text::contains_text;
use crate::text::find_first_word;
use crate::text::first_word;
use crate::text::has_prefix;
use crate::text::lemma_lines_occur;
use crate::text::lemma_occurs_in_piece;
use crate::text::lines;
use crate::text::occurs_in;
use crate::text::split_lines;
use crate::text::starts_with;
use crate::text::strip_prefix;
use crate::text::strip_through;
use vstd::prelude::*;
use vstd::utf8::decode_utf8;
use vstd::utf8::valid_utf8;

verus! {

/// What a printer's option list says of it.
#[derive(Debug, Clone, PartialEq, Eq)]
pub struct PrinterCapabilities {
    pub supports_color: bool,
    pub paper_sizes: Vec<String>,
}

/// The mathematical value of [`PrinterCapabilities`].
pub struct CapabilitiesView {
    pub supports_color: bool,
    pub paper_sizes: Seq<Seq<char>>,
}

impl View for PrinterCapabilities {
    type V = CapabilitiesView;

    open spec fn view(&self) -> CapabilitiesView {
        CapabilitiesView {
            supports_color: self.supports_color,
            paper_sizes: self.paper_sizes.deep_view(),
        }
    }
}

/// Where a discovery stands: which output it waits for.
#[derive(Debug, Clone, Copy, PartialEq, Eq)]
pub enum DiscoveryStage {
    /// The system default destination is asked for.
    Default,
    /// The list of printers is asked for.
    Listing,
    /// The option list of the next printer is asked for.
    Capabilities,
    /// The status of the next printer is asked for.
    Status,
    /// Every printer has been looked at.
    Finished,
}

/// A printer discovery under way. The host runs the command of
/// [`Discovery::next_query`], hands its output to [`Discovery::record`],
/// and goes on until no command is left; `printers` then holds the result.
#[derive(Debug, Clone, PartialEq, Eq)]
pub struct Discovery {
    pub stage: DiscoveryStage,
    pub default_printer: Option<String>,
    pub names: Vec<String>,
    pub pending: Option<PrinterCapabilities>,
    pub printers: Vec<PrinterInfo>,
}

/// The mathematical value of a [`Discovery`].
pub struct DiscoveryView {
    pub stage: DiscoveryStage,
    pub default_printer: Option<Seq<char>>,
    pub names: Seq<Seq<char>>,
    pub pending: Option<CapabilitiesView>,
    pub printers: Seq<PrinterInfoView>,
}

impl View for Discovery {
    type V = DiscoveryView;

    open spec fn view(&self) -> DiscoveryView {
        DiscoveryView {
            stage: self.stage,
            default_printer: self.default_printer.deep_view(),
            names: self.names.deep_view(),
            pending: match self.pending {
                Some(caps) => Some(caps@),
                None => None,
            },
            printers: self.printers@.map_values(|p: PrinterInfo| p@),
        }
    }
}

/// The regular expression whose first group picks the size tokens out of an
/// option line.
pub open spec fn size_pattern() -> Seq<char> {
    r"\*?([A-Za-z0-9]+)"@
}

/// The name in the first line that reads `system default destination:
/// <name>`: all that follows the colon and the space. `None` where no line
/// reads so.
pub open spec fn default_destination(lines: Seq<Seq<char>>) -> Option<Seq<char>>
    decreases lines.len(),
{
    if lines.len() == 0 {
        None
    } else {
        match after_prefix(lines.first(), "system default destination: "@) {
            Some(name) => Some(name),
            None => default_destination(lines.drop_first()),
        }
    }
}

/// The name in a line of the form `printer <name> ...`: the first word
/// after the leading `printer `.
pub open spec fn printer_name_in(line: Seq<char>) -> Option<Seq<char>> {
    match after_prefix(line, "printer "@) {
        Some(rest) => first_word(rest),
        None => None,
    }
}

/// The printer names of a listing, in the order of their lines.
pub open spec fn printer_names(lines: Seq<Seq<char>>) -> Seq<Seq<char>> {
    lines.filter_map(|line: Seq<char>| printer_name_in(line))
}

/// The status that a printer's status text stands for.
pub open spec fn status_of(text: Seq<char>) -> Seq<char> {
    if occurs_in(text, "is idle"@) {
        "idle"@
    } else if occurs_in(text, "is busy"@) {
        "busy"@
    } else if occurs_in(text, "disabled"@) {
        "disabled"@
    } else {
        "unknown"@
    }
}

/// Whether an option line is that of the colour model and names RGB or
/// CMYK among its values: the line begins with `ColorModel`, and `RGB` or
/// `CMYK` stands in what follows its first colon.
pub open spec fn names_color(line: Seq<char>) -> bool {
    has_prefix(line, "ColorModel"@) && match after_char(line, ':') {
        Some(values) => occurs_in(values, "RGB"@) || occurs_in(values, "CMYK"@),
        None => false,
    }
}

/// Whether some line of an option list says that the printer prints in
/// colour.
pub open spec fn color_in(lines: Seq<Seq<char>>) -> bool {
    exists|i: int| 0 <= i < lines.len() && names_color(#[trigger] lines[i])
}

/// The size tokens of one option line, as the size pattern finds them.
pub open spec fn size_tokens(line: Seq<char>) -> Seq<Option<Seq<char>>> {
    match regex_groups(size_pattern(), line, 1) {
        Some(found) => found,
        None => Seq::empty(),
    }
}

/// `sizes` with each token of `tokens` appended that is not yet in it, in
/// the order of `tokens`.
pub open spec fn with_new(sizes: Seq<Seq<char>>, tokens: Seq<Option<Seq<char>>>) -> Seq<
    Seq<char>,
>
    decreases tokens.len(),
{
    if tokens.len() == 0 {
        sizes
    } else {
        let before = with_new(sizes, tokens.drop_last());
        match tokens.last() {
            Some(token) => if before.contains(token) {
                before
            } else {
                before.push(token)
            },
            None => before,
        }
    }
}

/// The sizes named in the lines that begin with `PageSize/`, each once, in
/// the order in which they are first seen.
pub open spec fn sizes_in(lines: Seq<Seq<char>>) -> Seq<Seq<char>>
    decreases lines.len(),
{
    if lines.len() == 0 {
        Seq::empty()
    } else if has_prefix(lines.last(), "PageSize/"@) {
        with_new(sizes_in(lines.drop_last()), size_tokens(lines.last()))
    } else {
        sizes_in(lines.drop_last())
    }
}

/// The paper sizes of an option list: those it names, or A4 and Letter
/// where it names none.
pub open spec fn paper_sizes(text: Seq<char>) -> Seq<Seq<char>> {
    let found = sizes_in(lines(text));
    if found.len() == 0 {
        seq!["A4"@, "Letter"@]
    } else {
        found
    }
}

/// The capabilities that an option list stands for.
pub open spec fn capabilities_of(text: Seq<char>) -> CapabilitiesView {
    CapabilitiesView { supports_color: color_in(lines(text)), paper_sizes: paper_sizes(text) }
}

/// The entry of the printer `name`, given the system default, the
/// printer's capabilities and its status text.
pub open spec fn printer_entry(
    name: Seq<char>,
    default_printer: Option<Seq<char>>,
    caps: CapabilitiesView,
    status_text: Seq<char>,
) -> PrinterInfoView {
    PrinterInfoView {
        name,
        status: status_of(status_text),
        is_default: default_printer == Some(name),
        supports_color: caps.supports_color,
        paper_sizes: caps.paper_sizes,
    }
}

impl DiscoveryView {
    /// The state before anything was asked.
    pub open spec fn initial() -> DiscoveryView {
        DiscoveryView {
            stage: DiscoveryStage::Default,
            default_printer: None,
            names: Seq::empty(),
            pending: None,
            printers: Seq::empty(),
        }
    }

    /// What holds of every state that a discovery passes through: the
    /// printers looked at so far are the first of the listed names, and
    /// the stage fits what is still open.
    pub open spec fn wf(self) -> bool {
        &&& self.printers.len() <= self.names.len()
        &&& forall|i: int|
            0 <= i < self.printers.len() ==> (#[trigger] self.printers[i]).name == self.names[i]
        &&& match self.stage {
            DiscoveryStage::Default => self.names.len() == 0 && self.pending is None
                && self.default_printer is None,
            DiscoveryStage::Listing => self.names.len() == 0 && self.pending is None,
            DiscoveryStage::Capabilities => self.printers.len() < self.names.len()
                && self.pending is None,
            DiscoveryStage::Status => self.printers.len() < self.names.len()
                && self.pending is Some,
            DiscoveryStage::Finished => self.printers.len() == self.names.len()
                && self.pending is None,
        }
    }

    /// The command whose output the discovery waits for; `None` when it is
    /// over.
    pub open spec fn query(self) -> Option<InvocationView> {
        let next = self.printers.len() as int;
        match self.stage {
            DiscoveryStage::Default => Some(
                InvocationView { program: "lpstat"@, args: seq!["-d"@] },
            ),
            DiscoveryStage::Listing => Some(
                InvocationView { program: "lpstat"@, args: seq!["-p"@, "-d"@] },
            ),
            DiscoveryStage::Capabilities => if next < self.names.len() {
                Some(
                    InvocationView {
                        program: "lpoptions"@,
                        args: seq!["-p"@, self.names[next], "-l"@],
                    },
                )
            } else {
                None
            },
            DiscoveryStage::Status => if next < self.names.len() {
                Some(InvocationView { program: "lpstat"@, args: seq!["-p"@, self.names[next]] })
            } else {
                None
            },
            DiscoveryStage::Finished => None,
        }
    }

    /// The state after the awaited output, decoded to `text`, has come in.
    pub open spec fn step(self, text: Seq<char>) -> DiscoveryView {
        let next = self.printers.len() as int;
        match self.stage {
            DiscoveryStage::Default => DiscoveryView {
                stage: DiscoveryStage::Listing,
                default_printer: default_destination(lines(text)),
                ..self
            },
            DiscoveryStage::Listing => {
                let names = printer_names(lines(text));
                DiscoveryView {
                    stage: if self.printers.len() < names.len() {
                        DiscoveryStage::Capabilities
                    } else {
                        DiscoveryStage::Finished
                    },
                    names,
                    ..self
                }
            },
            DiscoveryStage::Capabilities => DiscoveryView {
                stage: DiscoveryStage::Status,
                pending: Some(capabilities_of(text)),
                ..self
            },
            DiscoveryStage::Status => match self.pending {
                Some(caps) => if next < self.names.len() {
                    DiscoveryView {
                        stage: if next + 1 < self.names.len() {
                            DiscoveryStage::Capabilities
                        } else {
                            DiscoveryStage::Finished
                        },
                        pending: None,
                        printers: self.printers.push(
                            printer_entry(self.names[next], self.default_printer, caps, text),
                        ),
                        ..self
                    }
                } else {
                    DiscoveryView { stage: DiscoveryStage::Finished, pending: None, ..self }
                },
                None => DiscoveryView { stage: DiscoveryStage::Finished, ..self },
            },
            DiscoveryStage::Finished => self,
        }
    }

    /// The state after the outputs `texts` have come in, one after the
    /// other.
    pub open spec fn run(self, texts: Seq<Seq<char>>) -> DiscoveryView
        decreases texts.len(),
    {
        if texts.len() == 0 {
            self
        } else {
            self.run(texts.drop_last()).step(texts.last())
        }
    }
}

/// The outputs of a discovery in the order in which they are asked for: the
/// default destination, the listing, then for each printer in turn its
/// option list and its status text.
pub open spec fn transcript(
    default_text: Seq<char>,
    listing_text: Seq<char>,
    details: Seq<(Seq<char>, Seq<char>)>,
) -> Seq<Seq<char>>
    decreases details.len(),
{
    if details.len() == 0 {
        seq![default_text, listing_text]
    } else {
        transcript(default_text, listing_text, details.drop_last()).push(details.last().0).push(
            details.last().1,
        )
    }
}

/// The entries of the first printers of `names`, one for each pair of
/// option list and status text in `details`.
pub open spec fn entries(
    names: Seq<Seq<char>>,
    default_printer: Option<Seq<char>>,
    details: Seq<(Seq<char>, Seq<char>)>,
) -> Seq<PrinterInfoView> {
    Seq::new(
        details.len(),
        |i: int|
            printer_entry(
                names[i],
                default_printer,
                capabilities_of(details[i].0),
                details[i].1,
            ),
    )
}

/// Discovery law, one step: every state reached from the initial one is
/// well formed, a well-formed state has a command to run exactly until it
/// is finished, and only the listing changes the names.
pub proof fn lemma_discovery_step(state: DiscoveryView, text: Seq<char>)
    requires
        state.wf(),
    ensures
        DiscoveryView::initial().wf(),
        state.step(text).wf(),
        state.query() is None <==> state.stage == DiscoveryStage::Finished,
        state.step(text).names == state.names || state.stage == DiscoveryStage::Listing,
{
}

/// Discovery law, whole run: once the default destination, the listing and
/// the option list and status text of the first printers have come in, the
/// discovery holds exactly the entries of those printers, in the order of
/// the listing, and it is finished when none is left.
pub proof fn lemma_discovery_result(
    default_text: Seq<char>,
    listing_text: Seq<char>,
    details: Seq<(Seq<char>, Seq<char>)>,
)
    requires
        details.len() <= printer_names(lines(listing_text)).len(),
    ensures
        ({
            let names = printer_names(lines(listing_text));
            let default_printer = default_destination(lines(default_text));
            let end = DiscoveryView::initial().run(
                transcript(default_text, listing_text, details),
            );
            &&& end.default_printer == default_printer
            &&& end.names == names
            &&& end.pending is None
            &&& end.printers == entries(names, default_printer, details)
            &&& end.stage == if details.len() < names.len() {
                DiscoveryStage::Capabilities
            } else {
                DiscoveryStage::Finished
            }
        }),
    decreases details.len(),
{
    let names = printer_names(lines(listing_text));
    let default_printer = default_destination(lines(default_text));
    let start = DiscoveryView::initial();
    if details.len() == 0 {
        let asked = seq![default_text, listing_text];
        assert(asked.drop_last() =~= seq![default_text]);
        assert(seq![default_text].drop_last() =~= Seq::<Seq<char>>::empty());
        assert(start.run(Seq::<Seq<char>>::empty()) == start);
        assert(start.run(seq![default_text]) == start.step(default_text));
        assert(start.run(asked) == start.step(default_text).step(listing_text));
        assert(start.run(asked).printers =~= entries(names, default_printer, details));
    } else {
        let front = details.drop_last();
        let (options, status) = details.last();
        lemma_discovery_result(default_text, listing_text, front);
        let asked = transcript(default_text, listing_text, front);
        let before = start.run(asked);
        assert(asked.push(options).drop_last() =~= asked);
        assert(asked.push(options).push(status).drop_last() =~= asked.push(options));
        assert(start.run(asked.push(options)) == before.step(options));
        assert(start.run(asked.push(options).push(status)) == before.step(options).step(status));
        assert(before.step(options).step(status).printers =~= entries(
            names,
            default_printer,
            details,
        ));
    }
}

/// Appending new tokens keeps what was there, in place, and repeats nothing.
pub proof fn lemma_with_new(sizes: Seq<Seq<char>>, tokens: Seq<Option<Seq<char>>>)
    requires
        sizes.no_duplicates(),
    ensures
        with_new(sizes, tokens).no_duplicates(),
        sizes.is_prefix_of(with_new(sizes, tokens)),
        forall|i: int|
            0 <= i < tokens.len() && tokens[i] is Some ==> with_new(sizes, tokens).contains(
                #[trigger] tokens[i]->0,
            ),
    decreases tokens.len(),
{
    if tokens.len() > 0 {
        let front = tokens.drop_last();
        lemma_with_new(sizes, front);
        let before = with_new(sizes, front);
        let after = with_new(sizes, tokens);
        assert forall|i: int| 0 <= i < tokens.len() && tokens[i] is Some implies after.contains(
            #[trigger] tokens[i]->0,
        ) by {
            if i < front.len() {
                assert(front[i] == tokens[i]);
                let k = choose|k: int| 0 <= k < before.len() && before[k] == tokens[i]->0;
                assert(after[k] == tokens[i]->0);
            } else if before.contains(tokens[i]->0) {
            } else {
                assert(after[before.len() as int] == tokens[i]->0);
            }
        }
    }
}

/// Appending new tokens adds nothing but tokens.
pub proof fn lemma_with_new_members(sizes: Seq<Seq<char>>, tokens: Seq<Option<Seq<char>>>)
    ensures
        forall|k: int|
            0 <= k < with_new(sizes, tokens).len() ==> sizes.contains(
                #[trigger] with_new(sizes, tokens)[k],
            ) || tokens.contains(Some(with_new(sizes, tokens)[k])),
    decreases tokens.len(),
{
    if tokens.len() > 0 {
        let front = tokens.drop_last();
        lemma_with_new_members(sizes, front);
        let before = with_new(sizes, front);
        let after = with_new(sizes, tokens);
        assert forall|k: int| 0 <= k < after.len() implies sizes.contains(#[trigger] after[k])
            || tokens.contains(Some(after[k])) by {
            if k < before.len() {
                assert(after[k] == before[k]);
                if front.contains(Some(before[k])) {
                    let i = choose|i: int| 0 <= i < front.len() && front[i] == Some(before[k]);
                    assert(tokens[i] == Some(before[k]));
                }
            } else {
                assert(tokens[tokens.len() - 1] == Some(after[k]));
            }
        }
    }
}

/// Sizes law: no size is listed twice.
pub proof fn lemma_sizes_distinct(lines: Seq<Seq<char>>)
    ensures
        sizes_in(lines).no_duplicates(),
    decreases lines.len(),
{
    if lines.len() > 0 {
        lemma_sizes_distinct(lines.drop_last());
        lemma_with_new(sizes_in(lines.drop_last()), size_tokens(lines.last()));
    }
}

/// Sizes law: a printer always has a size, and none twice.
pub proof fn lemma_paper_sizes(text: Seq<char>)
    ensures
        paper_sizes(text).len() > 0,
        paper_sizes(text).no_duplicates(),
{
    lemma_sizes_distinct(lines(text));
    reveal_strlit("A4");
    reveal_strlit("Letter");
    assert("A4"@.len() != "Letter"@.len());
}

/// Appends to `sizes` each token of `tokens` that it does not hold yet.
pub fn add_new_sizes(sizes: &mut Vec<String>, tokens: &Vec<Option<String>>)
    ensures
        final(sizes).deep_view() == with_new(old(sizes).deep_view(), tokens.deep_view()),
{
    let mut i: usize = 0;
    assert(tokens.deep_view().take(0) =~= Seq::<Option<Seq<char>>>::empty());
    while i < tokens.len()
        invariant
            i <= tokens.len(),
            sizes.deep_view() == with_new(
                old(sizes).deep_view(),
                tokens.deep_view().take(i as int),
            ),
        decreases tokens.len() - i,
    {
        let ghost before = sizes.deep_view();
        proof {
            assert(tokens.deep_view().take(i + 1).drop_last() =~= tokens.deep_view().take(
                i as int,
            ));
            assert(tokens.deep_view().take(i + 1).last() == tokens[i as int].deep_view());
        }
        match &tokens[i] {
            Some(token) => {
                if !contains_text(sizes, token.as_str()) {
                    sizes.push(token.clone());
                    assert(sizes.deep_view() =~= before.push(token@));
                }
            },
            None => {},
        }
        i += 1;
    }
    assert(tokens.deep_view().take(tokens.len() as int) =~= tokens.deep_view());
}

impl PrinterManager {
    /// Begins the discovery of the installed printers.
    pub fn get_available_printers() -> (state: Discovery)
        ensures
            state@ == DiscoveryView::initial(),
    {
        Discovery::new()
    }

    /// The entry of one printer: it is the default if the system default
    /// destination bears its name.
    pub fn printer_info(
        name: String,
        default_printer: &Option<String>,
        caps: PrinterCapabilities,
        status: String,
    ) -> (info: PrinterInfo)
        ensures
            info@ == (PrinterInfoView {
                name: name@,
                status: status@,
                is_default: default_printer.deep_view() == Some(name@),
                supports_color: caps.supports_color,
                paper_sizes: caps.paper_sizes.deep_view(),
            }),
    {
        let is_default = match default_printer {
            Some(d) => {
                let same = *d == name;
                same
            },
            None => false,
        };
        PrinterInfo {
            name,
            status,
            is_default,
            supports_color: caps.supports_color,
            paper_sizes: caps.paper_sizes,
        }
    }

    /// The system default destination named in the text of `lpstat -d`.
    pub fn default_printer_in(text: &str) -> (name: Option<String>)
        ensures
            name.deep_view() == default_destination(lines(text@)),
    {
        let all = split_lines(text);
        let mut i: usize = 0;
        assert(all.deep_view().skip(0) =~= all.deep_view());
        while i < all.len()
            invariant
                i <= all.len(),
                all.deep_view() == lines(text@),
                default_destination(lines(text@)) == default_destination(
                    all.deep_view().skip(i as int),
                ),
            decreases all.len() - i,
        {
            proof {
                assert(all.deep_view().skip(i as int).first() == all[i as int]@);
                assert(all.deep_view().skip(i as int).drop_first() =~= all.deep_view().skip(i + 1));
            }
            let found = strip_prefix(all[i].as_str(), "system default destination: ");
            if found.is_some() {
                return found;
            }
            i += 1;
        }
        None
    }

    /// The system default destination in the output of `lpstat -d`; its
    /// absence is no error. Output that is valid UTF-8 is read as the text
    /// it encodes.
    pub fn get_default_printer(stdout: &[u8]) -> (name: Option<String>)
        ensures
            name.deep_view() == default_destination(lines(utf8_lossy(stdout@))),
            valid_utf8(stdout@) ==> utf8_lossy(stdout@) == decode_utf8(stdout@),
    {
        let text = lossy_text(stdout);
        Self::default_printer_in(text.as_str())
    }

    /// The printer named in one line of a listing, if the line names one.
    pub fn printer_name_of(line: &str) -> (name: Option<String>)
        ensures
            name.deep_view() == printer_name_in(line@),
    {
        match strip_prefix(line, "printer ") {
            Some(rest) => find_first_word(rest.as_str()),
            None => None,
        }
    }

    /// The printers named in the text of `lpstat -p -d`.
    pub fn printer_names_in(text: &str) -> (names: Vec<String>)
        ensures
            names.deep_view() == printer_names(lines(text@)),
    {
        let all = split_lines(text);
        let mut names: Vec<String> = Vec::new();
        let mut i: usize = 0;
        assert(all.deep_view().take(0) =~= Seq::<Seq<char>>::empty());
        while i < all.len()
            invariant
                i <= all.len(),
                all.deep_view() == lines(text@),
                names.deep_view() == printer_names(all.deep_view().take(i as int)),
            decreases all.len() - i,
        {
            let ghost before = names.deep_view();
            proof {
                assert(all.deep_view().take(i + 1).drop_last() =~= all.deep_view().take(i as int));
                assert(all.deep_view().take(i + 1).last() == all[i as int]@);
            }
            match Self::printer_name_of(all[i].as_str()) {
                Some(name) => {
                    names.push(name);
                    assert(names.deep_view() =~= before + seq![name@]);
                },
                None => {},
            }
            i += 1;
        }
        assert(all.deep_view().take(all.len() as int) =~= all.deep_view());
        names
    }

    /// The printers named in the output of `lpstat -p -d`. Output that is
    /// valid UTF-8 is read as the text it encodes.
    pub fn printer_names_of(stdout: &[u8]) -> (names: Vec<String>)
        ensures
            names.deep_view() == printer_names(lines(utf8_lossy(stdout@))),
            valid_utf8(stdout@) ==> utf8_lossy(stdout@) == decode_utf8(stdout@),
    {
        let text = lossy_text(stdout);
        Self::printer_names_in(text.as_str())
    }

    /// The status in the text of `lpstat -p <name>`: `idle`, `busy`,
    /// `disabled`, or `unknown` where the text says none of these.
    pub fn printer_status_in(text: &str) -> (status: String)
        ensures
            status@ == status_of(text@),
    {
        if contains(text, "is idle") {
            String::from_str("idle")
        } else if contains(text, "is busy") {
            String::from_str("busy")
        } else if contains(text, "disabled") {
            String::from_str("disabled")
        } else {
            String::from_str("unknown")
        }
    }

    /// The status in the output of `lpstat -p <name>`. Output that is valid
    /// UTF-8 is read as the text it encodes.
    pub fn get_printer_status(stdout: &[u8]) -> (status: String)
        ensures
            status@ == status_of(utf8_lossy(stdout@)),
            valid_utf8(stdout@) ==> utf8_lossy(stdout@) == decode_utf8(stdout@),
    {
        let text = lossy_text(stdout);
        Self::printer_status_in(text.as_str())
    }

    /// The paper sizes in the text of `lpoptions -p <name> -l`: never
    /// none, none twice, and each one either a piece of the text or one of
    /// the two sizes that stand in where the text names none.
    pub fn extract_paper_sizes(lpoptions_output: &str) -> (sizes: Vec<String>)
        ensures
            sizes.deep_view() == paper_sizes(lpoptions_output@),
            sizes.len() > 0,
            sizes.deep_view().no_duplicates(),
            sizes.deep_view() == seq!["A4"@, "Letter"@] || forall|k: int|
                0 <= k < sizes.len() ==> occurs_in(
                    lpoptions_output@,
                    #[trigger] sizes.deep_view()[k],
                ),
    {
        let all = split_lines(lpoptions_output);
        let mut sizes: Vec<String> = Vec::new();
        let mut i: usize = 0;
        assert(all.deep_view().take(0) =~= Seq::<Seq<char>>::empty());
        while i < all.len()
            invariant
                i <= all.len(),
                all.deep_view() == lines(lpoptions_output@),
                sizes.deep_view() == sizes_in(all.deep_view().take(i as int)),
                forall|k: int|
                    0 <= k < sizes.len() ==> occurs_in(
                        lpoptions_output@,
                        #[trigger] sizes.deep_view()[k],
                    ),
            decreases all.len() - i,
        {
            proof {
                assert(all.deep_view().take(i + 1).drop_last() =~= all.deep_view().take(i as int));
                assert(all.deep_view().take(i + 1).last() == all[i as int]@);
            }
            if starts_with(all[i].as_str(), "PageSize/") {
                match capture_groups(r"\*?([A-Za-z0-9]+)", all[i].as_str(), 1) {
                    Ok(tokens) => {
                        let ghost before = sizes.deep_view();
                        add_new_sizes(&mut sizes, &tokens);
                        proof {
                            lemma_with_new_members(before, tokens.deep_view());
                            lemma_lines_occur(lpoptions_output@, 0, i as int);
                            assert forall|k: int| 0 <= k < sizes.len() implies occurs_in(
                                lpoptions_output@,
                                #[trigger] sizes.deep_view()[k],
                            ) by {
                                let size = sizes.deep_view()[k];
                                if before.contains(size) {
                                    let j = choose|j: int| 0 <= j < before.len() && before[j] == size;
                                    assert(occurs_in(lpoptions_output@, before[j]));
                                } else {
                                    let j = choose|j: int|
                                        0 <= j < tokens.deep_view().len() && tokens.deep_view()[j]
                                            == Some(size);
                                    assert(occurs_in(all[i as int]@, size));
                                    lemma_occurs_in_piece(lpoptions_output@, all[i as int]@, size);
                                }
                            }
                        }
                    },
                    Err(_) => {},
                }
            }
            i += 1;
        }
        proof {
            assert(all.deep_view().take(all.len() as int) =~= all.deep_view());
            lemma_paper_sizes(lpoptions_output@);
        }
        if sizes.len() == 0 {
            sizes.push(String::from_str("A4"));
            sizes.push(String::from_str("Letter"));
            assert(sizes.deep_view() =~= seq!["A4"@, "Letter"@]);
        }
        sizes
    }

    /// Whether one option line says that the printer prints in colour.
    pub fn line_names_color(line: &str) -> (yes: bool)
        ensures
            yes == names_color(line@),
    {
        if !starts_with(line, "ColorModel") {
            return false;
        }
        match strip_through(line, ':') {
            Some(values) => contains(values.as_str(), "RGB") || contains(values.as_str(), "CMYK"),
            None => false,
        }
    }

    /// Whether the text of `lpoptions -p <name> -l` says that the printer
    /// prints in colour.
    pub fn supports_color_in(text: &str) -> (yes: bool)
        ensures
            yes == color_in(lines(text@)),
    {
        let all = split_lines(text);
        let mut i: usize = 0;
        while i < all.len()
            invariant
                i <= all.len(),
                all.deep_view() == lines(text@),
                forall|k: int| 0 <= k < i ==> !names_color(#[trigger] lines(text@)[k]),
            decreases all.len() - i,
        {
            if Self::line_names_color(all[i].as_str()) {
                assert(names_color(lines(text@)[i as int]));
                return true;
            }
            i += 1;
        }
        false
    }

    /// The capabilities in the text of `lpoptions -p <name> -l`.
    pub fn printer_capabilities_in(text: &str) -> (caps: PrinterCapabilities)
        ensures
            caps@ == capabilities_of(text@),
    {
        let supports_color = Self::supports_color_in(text);
        let paper_sizes = Self::extract_paper_sizes(text);
        PrinterCapabilities { supports_color, paper_sizes }
    }

    /// The capabilities in the output of `lpoptions -p <name> -l`. Output
    /// that is valid UTF-8 is read as the text it encodes.
    pub fn get_printer_capabilities(stdout: &[u8]) -> (caps: PrinterCapabilities)
        ensures
            caps@ == capabilities_of(utf8_lossy(stdout@)),
            valid_utf8(stdout@) ==> utf8_lossy(stdout@) == decode_utf8(stdout@),
    {
        let text = lossy_text(stdout);
        Self::printer_capabilities_in(text.as_str())
    }
}

impl Discovery {
    /// A discovery that has asked for nothing yet.
    pub fn new() -> (state: Discovery)
        ensures
            state@ == DiscoveryView::initial(),
    {
        let state = Discovery {
            stage: DiscoveryStage::Default,
            default_printer: None,
            names: Vec::new(),
            pending: None,
            printers: Vec::new(),
        };
        assert(state@.names =~= Seq::<Seq<char>>::empty());
        assert(state@.printers =~= Seq::<PrinterInfoView>::empty());
        state
    }

    /// The command to run next; `None` when the discovery is over.
    pub fn next_query(&self) -> (call: Option<Invocation>)
        ensures
            match call {
                Some(c) => self@.query() == Some(c@),
                None => self@.query() is None,
            },
    {
        let next: usize = self.printers.len();
        match self.stage {
            DiscoveryStage::Default => {
                let mut args: Vec<String> = Vec::new();
                args.push(String::from_str("-d"));
                assert(args.deep_view() =~= seq!["-d"@]);
                Some(Invocation { program: String::from_str("lpstat"), args })
            },
            DiscoveryStage::Listing => {
                let mut args: Vec<String> = Vec::new();
                args.push(String::from_str("-p"));
                args.push(String::from_str("-d"));
                assert(args.deep_view() =~= seq!["-p"@, "-d"@]);
                Some(Invocation { program: String::from_str("lpstat"), args })
            },
            DiscoveryStage::Capabilities => {
                if next < self.names.len() {
                    let mut args: Vec<String> = Vec::new();
                    args.push(String::from_str("-p"));
                    args.push(self.names[next].clone());
                    args.push(String::from_str("-l"));
                    assert(args.deep_view() =~= seq!["-p"@, self@.names[next as int], "-l"@]);
                    Some(Invocation { program: String::from_str("lpoptions"), args })
                } else {
                    None
                }
            },
            DiscoveryStage::Status => {
                if next < self.names.len() {
                    let mut args: Vec<String> = Vec::new();
                    args.push(String::from_str("-p"));
                    args.push(self.names[next].clone());
                    assert(args.deep_view() =~= seq!["-p"@, self@.names[next as int]]);
                    Some(Invocation { program: String::from_str("lpstat"), args })
                } else {
                    None
                }
            },
            DiscoveryStage::Finished => None,
        }
    }

    /// Takes in the output of the command that was asked for, and moves on.
    /// Output that is valid UTF-8 is read as the text it encodes.
    pub fn record(self, stdout: &[u8]) -> (next: Discovery)
        ensures
            next@ == self@.step(utf8_lossy(stdout@)),
            valid_utf8(stdout@) ==> utf8_lossy(stdout@) == decode_utf8(stdout@),
    {
        let text = lossy_text(stdout);
        self.record_text(text.as_str())
    }

    /// Takes in the decoded output of the command that was asked for, and
    /// moves on.
    pub fn record_text(self, text: &str) -> (next: Discovery)
        ensures
            next@ == self@.step(text@),
    {
        let Discovery { stage, default_printer, names, pending, printers } = self;
        match stage {
            DiscoveryStage::Default => Discovery {
                stage: DiscoveryStage::Listing,
                default_printer: PrinterManager::default_printer_in(text),
                names,
                pending,
                printers,
            },
            DiscoveryStage::Listing => {
                let listed = PrinterManager::printer_names_in(text);
                let stage = if printers.len() < listed.len() {
                    DiscoveryStage::Capabilities
                } else {
                    DiscoveryStage::Finished
                };
                Discovery { stage, default_printer, names: listed, pending, printers }
            },
            DiscoveryStage::Capabilities => Discovery {
                stage: DiscoveryStage::Status,
                default_printer,
                names,
                pending: Some(PrinterManager::printer_capabilities_in(text)),
                printers,
            },
            DiscoveryStage::Status => match pending {
                Some(caps) => {
                    let at: usize = printers.len();
                    if at < names.len() {
                        let entry = PrinterManager::printer_info(
                            names[at].clone(),
                            &default_printer,
                            caps,
                            PrinterManager::printer_status_in(text),
                        );
                        let mut printers = printers;
                        let ghost before = printers@.map_values(|p: PrinterInfo| p@);
                        printers.push(entry);
                        assert(printers@.map_values(|p: PrinterInfo| p@) =~= before.push(entry@));
                        let stage = if at + 1 < names.len() {
                            DiscoveryStage::Capabilities
                        } else {
                            DiscoveryStage::Finished
                        };
                        Discovery { stage, default_printer, names, pending: None, printers }
                    } else {
                        Discovery {
                            stage: DiscoveryStage::Finished,
                            default_printer,
                            names,
                            pending: None,
                            printers,
                        }
                    }
                },
                None => Discovery {
                    stage: DiscoveryStage::Finished,
                    default_printer,
                    names,
                    pending: None,
                    printers,
                },
            },
            DiscoveryStage::Finished => Discovery {
                stage,
                default_printer,
                names,
                pending,
                printers,
            },
        }
    }
}

} // verus!

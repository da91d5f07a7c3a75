use print_my_bridge::api::PrinterInfo;
use print_my_bridge::directory::add_new_sizes;
use print_my_bridge::directory::Discovery;
use print_my_bridge::directory::DiscoveryStage;
use print_my_bridge::directory::PrinterCapabilities;
use print_my_bridge::printer::take_first_group;
use print_my_bridge::printer::Invocation;
use print_my_bridge::printer::PrinterManager;

fn call(program: &str, args: &[&str]) -> Option<Invocation> {
    Some(Invocation {
        program: program.to_string(),
        args: args.iter().map(|a| a.to_string()).collect(),
    })
}

fn texts(items: &[&str]) -> Vec<String> {
    items.iter().map(|s| s.to_string()).collect()
}

#[test]
fn one_idle_default_printer_is_discovered() {
    let listing = b"printer Office_Printer idle\nsystem default destination: Office_Printer\n";
    let state = PrinterManager::get_available_printers();
    assert_eq!(state.next_query(), call("lpstat", &["-d"]));
    let state = state.record(listing);
    assert_eq!(state.next_query(), call("lpstat", &["-p", "-d"]));
    let state = state.record(listing);
    assert_eq!(state.next_query(), call("lpoptions", &["-p", "Office_Printer", "-l"]));
    let state = state.record(b"");
    assert_eq!(state.next_query(), call("lpstat", &["-p", "Office_Printer"]));
    let state = state.record(b"printer Office_Printer is idle.  enabled since Mon 01 Jan 2024\n");
    assert_eq!(state.next_query(), None);
    assert_eq!(state.stage, DiscoveryStage::Finished);
    assert_eq!(
        state.printers,
        vec![PrinterInfo {
            name: "Office_Printer".to_string(),
            status: "idle".to_string(),
            is_default: true,
            supports_color: false,
            paper_sizes: texts(&["A4", "Letter"]),
        }]
    );
}

#[test]
fn two_printers_are_looked_at_in_the_order_of_the_listing() {
    let state = Discovery::new();
    let state = state.record(b"system default destination: Beta\n");
    let state = state.record(
        b"printer Alpha disabled since Tue -\n\treason unknown\nprinter Beta is idle.\nsystem default destination: Beta\n",
    );
    assert_eq!(state.names, texts(&["Alpha", "Beta"]));
    assert_eq!(state.next_query(), call("lpoptions", &["-p", "Alpha", "-l"]));
    let state = state.record(b"PageSize/Media Size: *A4 Letter\nColorModel/Color: *Gray RGB\n");
    assert_eq!(state.stage, DiscoveryStage::Status);
    assert_eq!(state.next_query(), call("lpstat", &["-p", "Alpha"]));
    let state = state.record(b"printer Alpha disabled since Tue -\n");
    assert_eq!(state.stage, DiscoveryStage::Capabilities);
    assert_eq!(state.next_query(), call("lpoptions", &["-p", "Beta", "-l"]));
    let state = state.record(b"Duplex/Duplex: *None\n");
    assert_eq!(state.next_query(), call("lpstat", &["-p", "Beta"]));
    let state = state.record(b"printer Beta is busy.\n");
    assert_eq!(state.next_query(), None);
    assert_eq!(
        state.printers,
        vec![
            PrinterInfo {
                name: "Alpha".to_string(),
                status: "disabled".to_string(),
                is_default: false,
                supports_color: true,
                paper_sizes: texts(&["PageSize", "Media", "Size", "A4", "Letter"]),
            },
            PrinterInfo {
                name: "Beta".to_string(),
                status: "busy".to_string(),
                is_default: true,
                supports_color: false,
                paper_sizes: texts(&["A4", "Letter"]),
            },
        ]
    );
}

#[test]
fn a_host_without_printers_finishes_after_the_listing() {
    let state = Discovery::new().record(b"no system default destination\n");
    assert_eq!(state.default_printer, None);
    let state = state.record(b"no system default destination\n");
    assert_eq!(state.stage, DiscoveryStage::Finished);
    assert_eq!(state.next_query(), None);
    assert_eq!(state.printers, Vec::<PrinterInfo>::new());
    let again = state.clone().record(b"printer Late is idle.\n");
    assert_eq!(again, state);
}

#[test]
fn default_printer_is_the_rest_of_the_first_matching_line() {
    assert_eq!(
        PrinterManager::get_default_printer(b"system default destination: Office_Printer\n"),
        Some("Office_Printer".to_string())
    );
    assert_eq!(
        PrinterManager::get_default_printer(
            b"x\r\nsystem default destination: First One\r\nsystem default destination: Second\n"
        ),
        Some("First One".to_string())
    );
    assert_eq!(PrinterManager::get_default_printer(b"no system default destination\n"), None);
    assert_eq!(PrinterManager::get_default_printer(b" system default destination: X\n"), None);
    assert_eq!(PrinterManager::get_default_printer(b""), None);
    assert_eq!(
        PrinterManager::default_printer_in("system default destination: "),
        Some("".to_string())
    );
}

#[test]
fn printer_names_are_the_second_words_of_printer_lines() {
    let lines = [
        "printer Office_Printer idle",
        "printer   Spaced\tname",
        "printer ",
        "printer",
        "printers Many",
        " printer Indented",
        "printer \u{a0}Wide rest",
        "Printer Upper",
        "",
    ];
    for line in lines {
        let expected = if line.starts_with("printer ") {
            line.split_whitespace().nth(1).map(|w| w.to_string())
        } else {
            None
        };
        assert_eq!(PrinterManager::printer_name_of(line), expected, "name in {:?}", line);
    }
    assert_eq!(
        PrinterManager::printer_name_of("printer Office_Printer idle"),
        Some("Office_Printer".to_string())
    );
    assert_eq!(
        PrinterManager::printer_names_of(b"printer A is idle.\n\tnote\nprinter B disabled\nprinter \n"),
        texts(&["A", "B"])
    );
    assert_eq!(PrinterManager::printer_names_in(""), Vec::<String>::new());
}

#[test]
fn status_is_classified_by_the_first_phrase_that_occurs() {
    assert_eq!(PrinterManager::get_printer_status(b"printer X is idle.  enabled since"), "idle");
    assert_eq!(PrinterManager::get_printer_status(b"printer X is busy."), "busy");
    assert_eq!(PrinterManager::get_printer_status(b"printer X disabled since"), "disabled");
    assert_eq!(PrinterManager::get_printer_status(b"printer X idle"), "unknown");
    assert_eq!(PrinterManager::get_printer_status(b""), "unknown");
    assert_eq!(PrinterManager::get_printer_status(b"disabled, is busy, is idle"), "idle");
    assert_eq!(PrinterManager::printer_status_in("disabled and is busy"), "busy");
}

#[test]
fn options_without_a_page_size_line_give_a4_and_letter() {
    assert_eq!(
        PrinterManager::extract_paper_sizes("Duplex/Duplex: *None DuplexNoTumble\nColorModel/Color: Gray\n"),
        texts(&["A4", "Letter"])
    );
    assert_eq!(PrinterManager::extract_paper_sizes(""), texts(&["A4", "Letter"]));
    assert_eq!(
        PrinterManager::extract_paper_sizes(" PageSize/Media Size: A3\n"),
        texts(&["A4", "Letter"])
    );
}

#[test]
fn page_size_tokens_are_kept_once_in_first_seen_order() {
    assert_eq!(
        PrinterManager::extract_paper_sizes("PageSize/Media Size: *A4 Letter Legal A4\n"),
        texts(&["PageSize", "Media", "Size", "A4", "Letter", "Legal"])
    );
    assert_eq!(
        PrinterManager::extract_paper_sizes(
            "PageSize/Size: Letter *A4\r\nOther/X: Tabloid\nPageSize/Size: A5 Letter 4x6.Photo\n"
        ),
        texts(&["PageSize", "Size", "Letter", "A4", "A5", "4x6", "Photo"])
    );
    assert_eq!(PrinterManager::extract_paper_sizes("PageSize/"), texts(&["PageSize"]));
}

#[test]
fn colour_is_read_off_the_values_of_the_colour_model() {
    let caps = PrinterManager::get_printer_capabilities(b"ColorModel/Color Mode: Gray *RGB\n");
    assert_eq!(
        caps,
        PrinterCapabilities { supports_color: true, paper_sizes: texts(&["A4", "Letter"]) }
    );
    assert!(PrinterManager::get_printer_capabilities(b"ColorModel/Mode: *CMYK\n").supports_color);
    assert!(
        PrinterManager::get_printer_capabilities(b"Duplex/D: None\r\nColorModel/M: Gray CMYK\r\n")
            .supports_color
    );
    assert!(!PrinterManager::get_printer_capabilities(b"ColorModel/Mode: *Gray\n").supports_color);
    assert!(!PrinterManager::get_printer_capabilities(b"").supports_color);
}

#[test]
fn colour_named_outside_the_colour_model_does_not_count() {
    assert!(
        !PrinterManager::get_printer_capabilities(
            b"ColorModel/Color Mode: *Gray Black\nInkType/Ink: RGBInk\n"
        )
        .supports_color
    );
    assert!(!PrinterManager::get_printer_capabilities(b"Ink/Ink: RGB CMYK\n").supports_color);
    assert!(!PrinterManager::printer_capabilities_in("RGB first, ColorModel later").supports_color);
    assert!(!PrinterManager::supports_color_in(" ColorModel/Mode: RGB\n"));
}

#[test]
fn colour_counts_only_after_the_colon() {
    assert!(PrinterManager::line_names_color("ColorModel/Color Mode: RGB"));
    assert!(PrinterManager::line_names_color("ColorModel:CMYK"));
    assert!(PrinterManager::line_names_color("ColorModel/a:b: xRGBx"));
    assert!(!PrinterManager::line_names_color("ColorModel/RGB Mode: Gray"));
    assert!(!PrinterManager::line_names_color("ColorModel RGB CMYK"));
    assert!(!PrinterManager::line_names_color("ColorModel/Mode:"));
    assert!(!PrinterManager::line_names_color("ColorModel/Mode: rgb cmyk"));
    assert!(!PrinterManager::line_names_color("Color/Mode: RGB"));
}

#[test]
fn decoded_output_is_recorded_like_raw_output() {
    let raw = Discovery::new().record(b"system default destination: Caf\xc3\xa9\n");
    let decoded = Discovery::new().record_text("system default destination: Caf\u{e9}\n");
    assert_eq!(raw, decoded);
    assert_eq!(raw.default_printer, Some("Caf\u{e9}".to_string()));
    let lossy = Discovery::new().record(b"system default destination: Caf\xe9\n");
    assert_eq!(lossy.default_printer, Some("Caf\u{fffd}".to_string()));
}

#[test]
fn job_id_is_the_token_after_request_id_is() {
    assert_eq!(
        PrinterManager::extract_job_id(b"request id is Office_Printer-42 (1 file(s))\n"),
        Some("Office_Printer-42".to_string())
    );
    assert_eq!(
        PrinterManager::extract_job_id(b"noise\nrequest id is A-1\nrequest id is B-2\n"),
        Some("A-1".to_string())
    );
    assert_eq!(PrinterManager::extract_job_id(b"request id is "), None);
    assert_eq!(PrinterManager::extract_job_id(b"request id is\n"), None);
    assert_eq!(PrinterManager::extract_job_id(b"Request ID is X-1\n"), None);
    assert_eq!(PrinterManager::extract_job_id(b""), None);
}

#[test]
fn job_id_of_malformed_utf8_carries_the_replacement_character() {
    assert_eq!(
        PrinterManager::extract_job_id(b"request id is A\xffB-7 (1 file(s))\n"),
        Some("A\u{fffd}B-7".to_string())
    );
}

#[test]
fn take_first_group_reads_only_the_first_match() {
    assert_eq!(take_first_group(&vec![]), None);
    assert_eq!(take_first_group(&vec![None, Some("b".to_string())]), None);
    assert_eq!(
        take_first_group(&vec![Some("a".to_string()), Some("b".to_string())]),
        Some("a".to_string())
    );
}

#[test]
fn add_new_sizes_skips_what_is_there_and_what_is_missing() {
    let mut sizes = texts(&["A4"]);
    add_new_sizes(
        &mut sizes,
        &vec![Some("Letter".to_string()), None, Some("A4".to_string()), Some("Letter".to_string())],
    );
    assert_eq!(sizes, texts(&["A4", "Letter"]));
    add_new_sizes(&mut sizes, &vec![]);
    assert_eq!(sizes, texts(&["A4", "Letter"]));
}

#[test]
fn printer_info_marks_the_default_by_name() {
    let caps = PrinterCapabilities { supports_color: true, paper_sizes: texts(&["A4"]) };
    let info = PrinterManager::printer_info(
        "One".to_string(),
        &Some("One".to_string()),
        caps.clone(),
        "idle".to_string(),
    );
    assert!(info.is_default);
    assert!(info.supports_color);
    assert_eq!(info.paper_sizes, texts(&["A4"]));
    let other = PrinterManager::printer_info(
        "One".to_string(),
        &Some("one".to_string()),
        caps.clone(),
        "idle".to_string(),
    );
    assert!(!other.is_default);
    let none = PrinterManager::printer_info("One".to_string(), &None, caps, "idle".to_string());
    assert!(!none.is_default);
}

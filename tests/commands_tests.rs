use isiprint::commands::{
    center_line, is_pdf_printer, is_pdfwriter, language_code, normalize_language, raw_target_of,
    test_page_text, wrap_text_to_width, CommandResponse,
};
use isiprint::commands::{test_page_lines, PageDetails};
use isiprint::media::media_size_text;
use isiprint::graphql::{graphql_outcome, GraphQLError, GraphQLResponse, API_URL};

#[test]
fn test_command_response_success() {
    let response: CommandResponse<String> = CommandResponse::success("test".to_string());
    assert!(response.success);
    assert_eq!(response.data, Some("test".to_string()));
    assert!(response.error.is_none());
}

#[test]
fn test_command_response_error() {
    let response: CommandResponse<String> = CommandResponse::error("error message");
    assert!(!response.success);
    assert!(response.data.is_none());
    assert_eq!(response.error, Some("error message".to_string()));
}

#[test]
fn test_api_url_is_correct() {
    assert_eq!(API_URL, "https://sandbox.isipass.net/api");
}

#[test]
fn pdf_printers_are_recognised_in_any_case() {
    assert!(is_pdf_printer("PDFwriter"));
    assert!(is_pdf_printer("Microsoft Print to Pdf"));
    assert!(!is_pdf_printer("Thermal1"));
    assert!(is_pdfwriter("RWTS PDFWriter"));
    assert!(!is_pdfwriter("Cups-PDF"));
}

#[test]
fn language_is_normalised() {
    assert_eq!(normalize_language(None), "es");
    assert_eq!(normalize_language(Some("  EN-us ".to_string())), "en");
    assert_eq!(normalize_language(Some("fr_CA".to_string())), "fr");
    assert_eq!(normalize_language(Some("de".to_string())), "es");
    assert_eq!(language_code("english"), "en");
}

#[test]
fn page_text_per_language() {
    assert_eq!(test_page_text("en").header_title, "Print Test - ISIPRINT");
    assert_eq!(test_page_text("fr").label_time, "Heure");
    assert_eq!(test_page_text("es").label_size, "Tama\u{00F1}o");
    assert_eq!(test_page_text("xx").label_os, "SO");
}

#[test]
fn lines_are_centered_by_bytes() {
    assert_eq!(center_line("abc", 9), "   abc");
    assert_eq!(center_line("abcd", 9), "  abcd");
    assert_eq!(center_line("abcdefghij", 9), "abcdefghij");
    assert_eq!(center_line("\u{00E9}", 5), " \u{00E9}");
}

#[test]
fn words_are_wrapped_greedily() {
    assert_eq!(
        wrap_text_to_width("the quick  brown fox jumps", 10),
        vec!["the quick".to_string(), "brown fox".to_string(), "jumps".to_string()]
    );
    assert_eq!(wrap_text_to_width("extraordinarily long", 5), vec!["extraordinarily".to_string(), "long".to_string()]);
    assert!(wrap_text_to_width("   ", 10).is_empty());
}

#[test]
fn generated_queue_names_give_raw_targets() {
    assert_eq!(raw_target_of("Network_Printer_192_168_1_100_9100"), Some(("192.168.1.100".to_string(), 9100)));
    assert_eq!(raw_target_of("Network_Printer_192_168_1_100_99999"), None);
    assert_eq!(raw_target_of("Network_Printer_x"), None);
    assert_eq!(raw_target_of("Thermal1"), None);
}

#[test]
fn graphql_first_error_wins() {
    let r: GraphQLResponse<u32> = GraphQLResponse {
        data: Some(7),
        errors: Some(vec![GraphQLError { message: "Invalid credentials".to_string() }]),
    };
    assert_eq!(graphql_outcome(r, "Empty"), Err("Invalid credentials".to_string()));
    let r: GraphQLResponse<u32> = GraphQLResponse { data: Some(7), errors: Some(vec![]) };
    assert_eq!(graphql_outcome(r, "Empty"), Ok(7));
    let r: GraphQLResponse<u32> = GraphQLResponse { data: None, errors: None };
    assert_eq!(graphql_outcome(r, "Empty login response"), Err("Empty login response".to_string()));
}

#[test]
fn test_page_is_laid_out_between_dividers() {
    let txt = test_page_text("en");
    let details = PageDetails {
        printer_name: "Thermal1".to_string(),
        preset: "Thermal".to_string(),
        media: "Custom.80x200mm".to_string(),
        size: media_size_text(80_000, 200_000),
        date: "2024-01-02".to_string(),
        time: "03:04:05".to_string(),
        os: "linux x86_64".to_string(),
    };
    let lines = test_page_lines(&txt, 42, &details);
    let divider = "=".repeat(42);
    assert_eq!(lines[0], divider);
    assert_eq!(lines[1], format!("{}Print Test - ISIPRINT", " ".repeat(10)));
    assert_eq!(lines[3], divider);
    assert_eq!(lines[5], "Application: ISIPRINT");
    assert_eq!(lines[6], "Installation Status: Completed successfully");
    assert!(lines.contains(&"-Print Type: Roll format".to_string()));
    assert!(lines.contains(&"-Size: 80x200 mm".to_string()));
    assert_eq!(lines[lines.len() - 1], divider);
    assert_eq!(lines[lines.len() - 2], "");
}

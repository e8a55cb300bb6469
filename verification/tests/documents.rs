use claudima::docx::{extract_text, extract_text_from_xml, preview, text_of_entry, EntryFailure};
use claudima::media::{
    document_content, is_docx, join_segments, truncate, voice_transcription, DocumentOutcome,
    VoiceOutcome,
};
use std::io::Write;

#[test]
fn test_extract_text_from_xml_simple() {
    let xml = r"<w:document><w:body><w:p><w:r><w:t>Hello World</w:t></w:r></w:p></w:body></w:document>";
    let text = extract_text_from_xml(xml);
    assert_eq!(text, "Hello World");
}

#[test]
fn test_extract_text_from_xml_multiple_paragraphs() {
    let xml = r"<w:document><w:body><w:p><w:r><w:t>First paragraph</w:t></w:r></w:p><w:p><w:r><w:t>Second paragraph</w:t></w:r></w:p></w:body></w:document>";
    let text = extract_text_from_xml(xml);
    assert!(text.contains("First paragraph"));
    assert!(text.contains("Second paragraph"));
    assert!(text.contains('\n'));
}

#[test]
fn test_extract_text_from_xml_with_entities() {
    let xml = r"<w:document><w:body><w:p><w:r><w:t>A &lt; B &amp; C &gt; D</w:t></w:r></w:p></w:body></w:document>";
    let text = extract_text_from_xml(xml);
    assert_eq!(text, "A < B & C > D");
}

#[test]
fn test_preview_short() {
    let text = "Hello";
    assert_eq!(preview(text, 10), "Hello");
}

#[test]
fn test_preview_truncated() {
    let text = "Hello World";
    assert_eq!(preview(text, 5), "Hello...");
}

#[test]
fn test_truncate() {
    assert_eq!(truncate("hello", 10), "hello");
    assert_eq!(truncate("hello world", 5), "hello...");
}

#[test]
fn preview_never_splits_a_character() {
    assert_eq!(preview("héllo", 2), "h...");
    assert_eq!(preview("héllo", 3), "hé...");
    assert_eq!(preview("héllo", 6), "héllo");
}

#[test]
fn paragraphs_breaks_tabs_and_entities() {
    let xml = "<w:p><w:r><w:t xml:space=\"preserve\">a</w:t><w:tab/><w:t>b</w:t><w:br/><w:t>c &quot;d&quot; &apos;e&apos; &unknown; &amp;</w:t></w:r></w:p><w:p><w:t>  </w:t></w:p><w:p><w:t/>ignored<w:t> last </w:t>";
    assert_eq!(extract_text_from_xml(xml), "a\tb\nc \"d\" 'e' &unknown; &\nlast");
}

#[test]
fn text_outside_text_elements_is_dropped() {
    assert_eq!(extract_text_from_xml("plain text"), "");
    assert_eq!(extract_text_from_xml("<w:p>not in a run</w:p>"), "");
    assert_eq!(extract_text_from_xml("<w:t>no paragraph</w:t>"), "");
    assert_eq!(extract_text_from_xml(""), "");
    assert_eq!(extract_text_from_xml("<w:p><w:t>open end"), "open end");
    assert_eq!(extract_text_from_xml("<w:p><w:t>amp at end &am"), "amp at end &am;");
}

fn archive(entries: &[(&str, &[u8])]) -> Vec<u8> {
    let mut writer = zip::ZipWriter::new(std::io::Cursor::new(Vec::new()));
    for (name, content) in entries {
        writer
            .start_file(*name, zip::write::SimpleFileOptions::default())
            .unwrap();
        writer.write_all(content).unwrap();
    }
    writer.finish().unwrap().into_inner()
}

#[test]
fn extract_text_reads_the_body_entry_of_the_archive() {
    let body = b"<w:document><w:body><w:p><w:r><w:t>From the archive</w:t></w:r></w:p></w:body></w:document>";
    let data = archive(&[("other.xml", b"<w:p><w:t>wrong entry</w:t></w:p>"), ("word/document.xml", body)]);
    assert_eq!(extract_text(&data), Ok("From the archive".to_string()));
}

#[test]
fn extract_text_reports_each_failure() {
    let not_zip = extract_text(b"this is no archive").unwrap_err();
    assert!(not_zip.starts_with("Invalid DOCX (not a valid ZIP): "), "{not_zip}");

    let missing = archive(&[("other.xml", b"<w:p><w:t>text</w:t></w:p>")]);
    assert_eq!(extract_text(&missing), Err("Invalid DOCX: missing word/document.xml".to_string()));

    let binary = archive(&[("word/document.xml", &[0xff, 0xfe, 0x00])]);
    let unreadable = extract_text(&binary).unwrap_err();
    assert!(unreadable.starts_with("Failed to read document.xml: "), "{unreadable}");

    let empty = archive(&[("word/document.xml", b"<w:p><w:t>   </w:t></w:p>")]);
    assert_eq!(
        extract_text(&empty),
        Err("DOCX appears to be empty or contains no text".to_string())
    );
}

#[test]
fn text_of_entry_maps_every_outcome() {
    assert_eq!(
        text_of_entry(Ok("<w:p><w:t>hi</w:t></w:p>".to_string())),
        Ok("hi".to_string())
    );
    assert_eq!(
        text_of_entry(Ok("<w:p></w:p>".to_string())),
        Err("DOCX appears to be empty or contains no text".to_string())
    );
    assert_eq!(
        text_of_entry(Err(EntryFailure::NotArchive("bad magic".to_string()))),
        Err("Invalid DOCX (not a valid ZIP): bad magic".to_string())
    );
    assert_eq!(
        text_of_entry(Err(EntryFailure::Missing)),
        Err("Invalid DOCX: missing word/document.xml".to_string())
    );
    assert_eq!(
        text_of_entry(Err(EntryFailure::Unreadable("not utf-8".to_string()))),
        Err("Failed to read document.xml: not utf-8".to_string())
    );
}

#[test]
fn attachments_are_described_when_they_fail() {
    assert_eq!(
        voice_transcription(VoiceOutcome::Unavailable),
        "[Voice message - transcription not available (Whisper not configured)]"
    );
    assert_eq!(
        voice_transcription(VoiceOutcome::DownloadFailed("timeout".to_string())),
        "[Voice message - download failed: timeout]"
    );
    assert_eq!(
        voice_transcription(VoiceOutcome::Failed("no model".to_string())),
        "[Voice message - transcription failed: no model]"
    );
    assert_eq!(voice_transcription(VoiceOutcome::Transcribed("hi".to_string())), "hi");

    let doc = document_content("a.docx", DocumentOutcome::DownloadFailed("404".to_string()));
    assert_eq!(doc.filename, "a.docx");
    assert_eq!(doc.text, "[Document download failed: 404]");
    let doc = document_content("a.docx", DocumentOutcome::ExtractionFailed("empty".to_string()));
    assert_eq!(doc.text, "[Document extraction failed: empty]");
    let doc = document_content("a.docx", DocumentOutcome::Extracted("body".to_string()));
    assert_eq!(doc.text, "body");
}

#[test]
fn document_names_are_matched_in_any_case() {
    assert!(is_docx("report.docx"));
    assert!(is_docx("REPORT.DOCX"));
    assert!(!is_docx("report.doc"));
    assert!(!is_docx("docx"));
    assert!(is_docx(".docx"));
}

#[test]
fn transcription_segments_are_joined_with_spaces() {
    assert_eq!(join_segments(&vec![" Hello".to_string(), "world. ".to_string()]), "Hello world.");
    assert_eq!(join_segments(&vec![]), "");
}

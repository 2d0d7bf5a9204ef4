use convert_server::descriptor::build_job_descriptor;

#[test]
fn descriptor_embeds_paths_in_exact_document() {
    let r = build_job_descriptor("/tmp/in.docx", "/tmp/out.pdf", "/usr/share/fonts");
    let expected = format!(
        "\n        <?xml version=\"1.0\" encoding=\"utf-8\"?>\n        <TaskQueueDataConvert xmlns:xsi=\"http://www.w3.org/2001/XMLSchema-instance\"\n                              xmlns:xsd=\"http://www.w3.org/2001/XMLSchema\">\n          <m_sFileFrom>{}</m_sFileFrom>\n          <m_sFileTo>{}</m_sFileTo>\n          <m_sFontDir>{}</m_sFontDir>\n          <m_nFormatTo>513</m_nFormatTo>\n        </TaskQueueDataConvert>\n        ",
        "/tmp/in.docx", "/tmp/out.pdf", "/usr/share/fonts",
    );
    assert_eq!(r, expected);
}

#[test]
fn descriptor_names_the_pdf_format_target() {
    let r = build_job_descriptor("/a", "/b", "/c");
    assert!(r.contains("<m_nFormatTo>513</m_nFormatTo>"));
    assert!(r.contains("<m_sFileFrom>/a</m_sFileFrom>"));
    assert!(r.contains("<m_sFileTo>/b</m_sFileTo>"));
    assert!(r.contains("<m_sFontDir>/c</m_sFontDir>"));
}

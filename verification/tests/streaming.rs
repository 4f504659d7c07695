use gemini_rust::models::{Candidate, Content, GenerateContentResponse, Part, Role};
use gemini_rust::streaming::{StreamAccumulator, StreamDecoder};

fn doc_strings(docs: Vec<Vec<u8>>) -> Vec<String> {
    docs.into_iter()
        .map(|d| String::from_utf8(d).expect("document should be UTF-8"))
        .collect()
}

#[test]
fn two_documents_in_a_single_chunk() {
    let mut decoder = StreamDecoder::new();
    let docs = decoder.push_chunk(b"{\"a\":1}{\"b\":2}");
    assert_eq!(doc_strings(docs), vec!["{\"a\":1}", "{\"b\":2}"]);
    assert_eq!(decoder.buffered_len(), 0);
}

#[test]
fn two_documents_byte_by_byte() {
    let payload = b"{\"a\":1}{\"b\":2}";
    let mut decoder = StreamDecoder::new();
    let mut docs: Vec<Vec<u8>> = Vec::new();
    for &b in payload.iter() {
        docs.extend(decoder.push_chunk(&[b]));
    }
    assert_eq!(doc_strings(docs), vec!["{\"a\":1}", "{\"b\":2}"]);
    assert_eq!(decoder.buffered_len(), 0);
}

#[test]
fn chunking_does_not_change_the_documents() {
    let payload: &[u8] = b"{\"x\":[1,2,{\"y\":\"z\"}]}{\"w\":0}{\"v\":\"tail";
    let mut whole = StreamDecoder::new();
    let whole_docs = whole.push_chunk(payload);

    for split in 1..payload.len() {
        let mut decoder = StreamDecoder::new();
        let mut docs = decoder.push_chunk(&payload[..split]);
        docs.extend(decoder.push_chunk(&payload[split..]));
        assert_eq!(docs, whole_docs);
        assert_eq!(decoder.buffered_len(), whole.buffered_len());
    }
}

#[test]
fn brace_inside_string_does_not_end_a_document() {
    let mut decoder = StreamDecoder::new();
    let docs = decoder.push_chunk(b"{\"text\":\"a { b\"}");
    let docs = doc_strings(docs);
    assert_eq!(docs, vec!["{\"text\":\"a { b\"}"]);
    let value: serde_json::Value = serde_json::from_str(&docs[0]).expect("should parse");
    assert_eq!(value["text"], "a { b");
}

#[test]
fn closing_brace_inside_string_does_not_end_a_document() {
    let mut decoder = StreamDecoder::new();
    let docs = decoder.push_chunk(b"{\"text\":\"a } b\"}{\"n\":1}");
    assert_eq!(
        doc_strings(docs),
        vec!["{\"text\":\"a } b\"}", "{\"n\":1}"]
    );
}

#[test]
fn escaped_quote_does_not_toggle_string_mode() {
    let mut decoder = StreamDecoder::new();
    let docs = decoder.push_chunk(b"{\"text\":\"a \\\" b\"}");
    let docs = doc_strings(docs);
    assert_eq!(docs, vec!["{\"text\":\"a \\\" b\"}"]);
    let value: serde_json::Value = serde_json::from_str(&docs[0]).expect("should parse");
    assert_eq!(value["text"], "a \" b");
}

#[test]
fn incomplete_document_waits_for_more_input() {
    let mut decoder = StreamDecoder::new();
    let docs = decoder.push_chunk(b"{\"a\":");
    assert!(docs.is_empty());
    let docs = decoder.push_chunk(b"1}");
    assert_eq!(doc_strings(docs), vec!["{\"a\":1}"]);
}

#[test]
fn empty_input_yields_nothing() {
    let mut decoder = StreamDecoder::new();
    let docs = decoder.push_chunk(b"");
    assert!(docs.is_empty());
    assert_eq!(decoder.finish(), None);
}

#[test]
fn finish_hands_back_unfinished_bytes() {
    let mut decoder = StreamDecoder::new();
    let docs = decoder.push_chunk(b"{\"a\":1}{\"b\":");
    assert_eq!(doc_strings(docs), vec!["{\"a\":1}"]);
    assert_eq!(decoder.finish(), Some(b"{\"b\":".to_vec()));
}

fn text_response(text: &str) -> GenerateContentResponse {
    GenerateContentResponse {
        candidates: vec![Candidate {
            content: Content {
                role: Role::Model,
                parts: vec![Part::Text { text: text.to_string() }],
            },
            finish_reason: None,
            safety_ratings: None,
            citation_metadata: None,
            grounding_metadata: None,
            url_context_metadata: None,
        }],
        prompt_feedback: None,
        usage_metadata: None,
    }
}

#[test]
fn accumulator_concatenates_fragments() {
    let mut acc = StreamAccumulator::new();
    assert_eq!(acc.process_chunk(text_response("Hel")), Some(String::from("Hel")));
    assert_eq!(acc.process_chunk(text_response("lo ")), Some(String::from("lo ")));
    assert_eq!(acc.process_chunk(text_response("world")), Some(String::from("world")));
    assert_eq!(acc.get_accumulated_text(), "Hello world");

    let final_response = acc.finalize().expect("a document was seen");
    if let Part::Text { text } = &final_response.candidates[0].content.parts[0] {
        assert_eq!(text, "Hello world");
    } else {
        panic!("expected the final document to carry the accumulated text");
    }
}

#[test]
fn document_without_text_keeps_accumulated_text() {
    let mut acc = StreamAccumulator::new();
    assert_eq!(acc.process_chunk(text_response("abc")), Some(String::from("abc")));

    let structural = GenerateContentResponse {
        candidates: Vec::new(),
        prompt_feedback: None,
        usage_metadata: None,
    };
    assert_eq!(acc.process_chunk(structural), None);
    assert_eq!(acc.get_accumulated_text(), "abc");

    let final_response = acc.finalize().expect("a document was seen");
    assert!(final_response.candidates.is_empty());
}

#[test]
fn finalize_without_documents_yields_nothing() {
    let acc = StreamAccumulator::new();
    assert!(acc.finalize().is_none());
}

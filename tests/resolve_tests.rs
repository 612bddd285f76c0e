use replay_control::resolve::{collect_results, resolve_batch, resolve_item, Extraction, ItemFailure};

fn ran(text: &str) -> Extraction {
    Extraction::Finished { success: true, stdout: text.as_bytes().to_vec() }
}

#[test]
fn all_items_resolve() {
    let batch = vec![ran("{\"players\":[]}"), ran("{\"a\":1}"), ran(" {} ")];
    let docs = resolve_batch(&batch).ok().unwrap();
    assert_eq!(docs.len(), 3);
    assert_eq!(docs[1]["a"], serde_json::Value::from(1));
}

#[test]
fn malformed_second_item_fails_batch() {
    let batch = vec![ran("{}"), ran("{not json"), ran("{}")];
    let failure = resolve_batch(&batch).err().unwrap();
    assert_eq!(failure.index, 1);
    assert!(matches!(failure.failure, ItemFailure::Malformed(_)));
}

#[test]
fn exit_failure_is_item_failure() {
    let x = Extraction::Finished { success: false, stdout: b"{}".to_vec() };
    assert!(matches!(resolve_item(&x), Err(ItemFailure::ExitFailure)));
}

#[test]
fn unlaunched_extractor_keeps_reason() {
    let x = Extraction::Unlaunched { reason: "not found".to_string() };
    match resolve_item(&x) {
        Err(ItemFailure::Unlaunched(r)) => assert_eq!(r, "not found"),
        _ => panic!("expected an unlaunched failure"),
    }
}

#[test]
fn first_failure_is_reported() {
    let batch = vec![
        ran("{}"),
        Extraction::Finished { success: false, stdout: Vec::new() },
        ran("]"),
    ];
    let failure = resolve_batch(&batch).err().unwrap();
    assert_eq!(failure.index, 1);
    assert!(matches!(failure.failure, ItemFailure::ExitFailure));
}

#[test]
fn empty_batch_resolves_to_nothing() {
    assert_eq!(resolve_batch(&Vec::new()).ok().unwrap().len(), 0);
}

#[test]
fn collected_documents_keep_queue_order() {
    let results = vec![
        Ok(serde_json::Value::from("first")),
        Ok(serde_json::Value::from("second")),
        Ok(serde_json::Value::from("third")),
    ];
    let docs = collect_results(results).ok().unwrap();
    assert_eq!(docs, vec![
        serde_json::Value::from("first"),
        serde_json::Value::from("second"),
        serde_json::Value::from("third"),
    ]);
}

#[test]
fn collect_reports_first_failure() {
    let results = vec![
        Ok(serde_json::Value::from(1)),
        Err(ItemFailure::Malformed("bad".to_string())),
        Err(ItemFailure::ExitFailure),
    ];
    let failure = collect_results(results).err().unwrap();
    assert_eq!(failure.index, 1);
    assert!(matches!(failure.failure, ItemFailure::Malformed(ref m) if m == "bad"));
}

#[test]
fn batch_documents_follow_item_order() {
    let batch = vec![ran("{\"n\":0}"), ran("{\"n\":1}"), ran("{\"n\":2}")];
    let docs = resolve_batch(&batch).ok().unwrap();
    for (i, d) in docs.iter().enumerate() {
        assert_eq!(d["n"], serde_json::Value::from(i));
    }
}

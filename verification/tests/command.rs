use ffgraph::command::{
    clear_title, create_failure, encode_failure, open_failure, read_graph, save_failure,
    save_graph, set_file_name_to_title, set_title_failure, write_failure,
};
use ffgraph::error::Error;

#[test]
fn title_names_the_file() {
    assert_eq!(
        set_file_name_to_title(Some("FFgraph"), Some("FFgraph"), Some("/tmp/a.ffg")),
        Ok(Some("FFgraph - /tmp/a.ffg".to_string()))
    );
}

#[test]
fn title_is_left_alone_when_it_is_right() {
    assert_eq!(set_file_name_to_title(Some("FFgraph"), Some("FFgraph - a"), Some("a")), Ok(None));
    assert_eq!(set_file_name_to_title(Some("FFgraph"), Some("FFgraph"), None), Ok(None));
}

#[test]
fn unknown_title_is_always_set() {
    assert_eq!(
        set_file_name_to_title(Some("FFgraph"), None, None),
        Ok(Some("FFgraph".to_string()))
    );
    assert_eq!(
        set_file_name_to_title(Some("FFgraph"), None, Some("a")),
        Ok(Some("FFgraph - a".to_string()))
    );
}

#[test]
fn title_needs_a_window() {
    let expected = Error::new("failed to get first window config".to_string(), vec![]);
    assert_eq!(set_file_name_to_title(None, Some("FFgraph"), Some("a")), Err(expected.clone()));
    assert_eq!(set_file_name_to_title(None, None, None), Err(expected.clone()));
    assert_eq!(clear_title(None, Some("FFgraph - a")), Err(expected));
}

#[test]
fn clear_title_goes_back_to_the_base() {
    assert_eq!(
        clear_title(Some("FFgraph"), Some("FFgraph - a")),
        Ok(Some("FFgraph".to_string()))
    );
    assert_eq!(clear_title(Some("FFgraph"), Some("FFgraph")), Ok(None));
    assert_eq!(clear_title(Some("FFgraph"), None), Ok(Some("FFgraph".to_string())));
}

#[test]
fn failure_messages_are_exact() {
    assert_eq!(set_title_failure(), "failed to set title");
    assert_eq!(write_failure(), "failed to write graph to encoder");
    assert_eq!(encode_failure(), "failed to encode graph");
    assert_eq!(create_failure(), "failed to create graph from file");
}

#[test]
fn failure_messages_name_the_path() {
    assert_eq!(open_failure("/x/y.ffg"), "failed to open path /x/y.ffg");
    assert_eq!(save_failure("/x/y.ffg"), "failed to save graph to file /x/y.ffg");
}

#[test]
fn saved_graph_is_a_gzip_member() {
    let json = br#"{"graph":{"nodes":[]}}"#;
    let file = save_graph(json).unwrap();
    assert_ne!(file.as_slice(), json.as_slice());
    assert_eq!(&file[..4], &[0x1f, 0x8b, 8, 0]);
    assert_eq!(&file[4..10], &[0, 0, 0, 0, 2, 255]);
}

#[test]
fn saved_graph_reads_back() {
    let json = br#"{"graph":{"nodes":[1,2,3],"edges":[]}}"#.to_vec();
    let file = save_graph(&json).unwrap();
    assert_eq!(read_graph(&file), Ok(json));
}

#[test]
fn empty_graph_text_reads_back() {
    let file = save_graph(&[]).unwrap();
    assert!(!file.is_empty());
    assert_eq!(read_graph(&file), Ok(vec![]));
}

#[test]
fn saving_twice_gives_the_same_bytes() {
    let json = b"{\"graph\":null}";
    assert_eq!(save_graph(json), save_graph(json));
}

#[test]
fn plain_text_is_no_graph_file() {
    let error = read_graph(b"{\"graph\":null}").unwrap_err();
    assert_eq!(error.message(), "failed to create graph from file");
    assert_eq!(error.errors().len(), 1);
}

#[test]
fn truncated_graph_file_is_rejected() {
    let file = save_graph(br#"{"graph":{"nodes":[1,2,3]}}"#).unwrap();
    let error = read_graph(&file[..file.len() - 4]).unwrap_err();
    assert_eq!(error.message(), "failed to create graph from file");
    assert_eq!(error.errors().len(), 1);
}

#[test]
fn saving_succeeds_on_texts_of_every_size() {
    for size in [0usize, 1, 100, 70_000] {
        let json = vec![b'x'; size];
        let file = save_graph(&json).unwrap();
        assert_eq!(read_graph(&file), Ok(json));
    }
}

use nft_ingester::IngesterError;

fn s(text: &str) -> String {
    text.to_string()
}

#[test]
fn messages_of_unit_variants() {
    assert_eq!(IngesterError::ChangeLogEventMalformed.message(), "ChangeLog Event Malformed");
    assert_eq!(IngesterError::CompressedAssetEventMalformed.message(), "Compressed Asset Event Malformed");
    assert_eq!(IngesterError::BatchInitNetworkingError.message(), "Error downloading batch files");
    assert_eq!(IngesterError::BatchInitIOError.message(), "Error writing batch files");
    assert_eq!(IngesterError::NotImplemented.message(), "NotImplemented");
}

#[test]
fn messages_of_text_variants() {
    assert_eq!(
        IngesterError::StorageListenerError { msg: s("closed") }.message(),
        "Storage listener error: (closed)"
    );
    assert_eq!(IngesterError::StorageWriteError(s("db down")).message(), "Storage Write Error db down");
    assert_eq!(IngesterError::DeserializationError(s("bad")).message(), "Deserialization Error bad");
    assert_eq!(IngesterError::TaskManagerError(s("full")).message(), "Task Manager Error full");
    assert_eq!(
        IngesterError::ConfigurationError { msg: s("no url") }.message(),
        "Missing or invalid configuration: (no url)"
    );
    assert_eq!(IngesterError::RpcGetDataError(s("timeout")).message(), "Error getting RPC data timeout");
    assert_eq!(
        IngesterError::RpcDataUnsupportedFormat(s("json")).message(),
        "RPC returned data in unsupported format json"
    );
    assert_eq!(IngesterError::SerializatonError(s("x")).message(), "Data serializaton error x");
    assert_eq!(IngesterError::MessengerError(s("redis")).message(), "Messenger error redis");
    assert_eq!(IngesterError::ParsingError(s("short")).message(), "Blockbuster Parsing error short");
}

#[test]
fn message_with_empty_text() {
    assert_eq!(IngesterError::StorageWriteError(String::new()).message(), "Storage Write Error ");
    assert_eq!(IngesterError::StorageListenerError { msg: String::new() }.message(), "Storage listener error: ()");
}

#[test]
fn task_send_failure_quotes_the_sender_message() {
    let e = IngesterError::task_send_failure(&s("channel closed"));
    assert_eq!(e, IngesterError::TaskManagerError(s("Could not create task: \"channel closed\"")));
    assert_eq!(e.message(), "Task Manager Error Could not create task: \"channel closed\"");
}

#[test]
fn task_send_failure_escapes_quotes() {
    let e = IngesterError::task_send_failure(&s("say \"hi\"\n"));
    assert_eq!(e, IngesterError::TaskManagerError(s("Could not create task: \"say \\\"hi\\\"\\n\"")));
}

#[test]
fn io_errors_are_batch_write_errors() {
    let e = IngesterError::from(std::io::Error::new(std::io::ErrorKind::Other, "disk full"));
    assert_eq!(e, IngesterError::BatchInitIOError);
    assert_eq!(e.message(), "Error writing batch files");
}

#[test]
fn task_manager_failure_prefixes_the_quoted_text() {
    let e = IngesterError::task_manager_failure(&s("\"closed\""));
    assert_eq!(e, IngesterError::TaskManagerError(s("Could not create task: \"closed\"")));
    let e = IngesterError::task_manager_failure(&String::new());
    assert_eq!(e, IngesterError::TaskManagerError(s("Could not create task: ")));
}

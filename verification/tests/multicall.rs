use rtorrent_xmlrpc_bindings::{
    complete, decode, decode_row, Call, DownloadField, EntityKind, Error, MultiBuilder, Operation,
    ResultSet, ResultType, Server, TypedValue, Value,
};

struct Refusing;

impl xmlrpc::Transport for Refusing {
    type Stream = &'static [u8];

    fn transmit(
        self,
        _request: &xmlrpc::Request<'_>,
    ) -> Result<Self::Stream, Box<dyn std::error::Error + Send + Sync>> {
        Err("connection refused".into())
    }
}

fn transport_failure() -> xmlrpc::Error {
    xmlrpc::Request::new("d.multicall2").call(Refusing).unwrap_err()
}

fn text(s: &str) -> Value {
    Value::Text(s.to_string())
}

fn double(d: f64) -> Value {
    Value::Float64(d.to_bits())
}

fn row(cells: Vec<Value>) -> Value {
    Value::List(cells)
}

fn name_and_ratio() -> MultiBuilder {
    let server = Server::new("http://1.2.3.4/RPC2");
    MultiBuilder::new(&server, "default")
        .add_column(DownloadField::Name.operation())
        .add_column(DownloadField::Ratio.operation())
}

fn refusal(res: Result<ResultSet, Error>) -> String {
    match res {
        Err(Error::UnexpectedStructure(msg)) => msg,
        other => panic!("expected a refusal, got {:?}", other),
    }
}

#[test]
fn name_and_ratio_of_two_downloads() {
    let response = Value::List(vec![
        row(vec![text("Ubuntu.iso"), double(1.5)]),
        row(vec![text("Debian.iso"), double(0.0)]),
    ]);
    let set = name_and_ratio().invoke(|_call| Ok(response)).unwrap();
    assert_eq!(set.len(), 2);
    assert_eq!(
        set.rows(),
        &vec![
            vec![TypedValue::Text("Ubuntu.iso".to_string()), TypedValue::Float64(1.5f64.to_bits())],
            vec![TypedValue::Text("Debian.iso".to_string()), TypedValue::Float64(0.0f64.to_bits())],
        ]
    );
    match &set.get(0).unwrap()[1] {
        TypedValue::Float64(bits) => assert_eq!(f64::from_bits(*bits), 1.5),
        other => panic!("expected a double, got {:?}", other),
    }
    match &set.get(1).unwrap()[1] {
        TypedValue::Float64(bits) => assert_eq!(f64::from_bits(*bits), 0.0),
        other => panic!("expected a double, got {:?}", other),
    }
}

#[test]
fn a_row_of_width_three_is_refused() {
    let response = Value::List(vec![row(vec![text("Ubuntu.iso"), double(1.5), Value::Int64(1)])]);
    let msg = refusal(name_and_ratio().invoke(|_call| Ok(response)));
    assert_eq!(msg, "row width differs from the number of declared columns");
}

#[test]
fn a_short_row_is_refused() {
    let response = Value::List(vec![row(vec![text("Ubuntu.iso")])]);
    let msg = refusal(name_and_ratio().invoke(|_call| Ok(response)));
    assert_eq!(msg, "row width differs from the number of declared columns");
}

#[test]
fn one_bad_row_after_good_rows_fails_the_whole_call() {
    let response = Value::List(vec![
        row(vec![text("Ubuntu.iso"), double(1.5)]),
        row(vec![text("Debian.iso"), double(0.0)]),
        row(vec![text("Arch.iso")]),
    ]);
    let res = name_and_ratio().invoke(|_call| Ok(response));
    assert!(matches!(res, Err(Error::UnexpectedStructure(_))));
}

#[test]
fn the_call_names_the_multicall_and_the_columns_in_order() {
    let mut seen: Option<Call> = None;
    let res = name_and_ratio().invoke(|call| {
        seen = Some(call);
        Ok(Value::List(vec![]))
    });
    assert!(res.unwrap().is_empty());
    let call = seen.unwrap();
    assert_eq!(call.endpoint, "http://1.2.3.4/RPC2");
    assert_eq!(call.method_name, "d.multicall2");
    assert_eq!(call.args, vec![text(""), text("default"), text("d.name"), text("d.ratio")]);
}

#[test]
fn the_request_is_the_call_that_invoke_sends() {
    let builder = name_and_ratio();
    let request = builder.request();
    let mut seen: Option<Call> = None;
    let _ = builder.invoke(|call| {
        seen = Some(call);
        Ok(Value::List(vec![]))
    });
    assert_eq!(seen.unwrap(), request);
}

#[test]
fn the_transport_is_asked_once_on_success() {
    let mut calls = 0;
    let res = name_and_ratio().invoke(|_call| {
        calls += 1;
        Ok(Value::List(vec![row(vec![text("a"), double(2.0)])]))
    });
    assert!(res.is_ok());
    assert_eq!(calls, 1);
}

#[test]
fn the_transport_is_asked_once_on_a_malformed_answer() {
    let mut calls = 0;
    let res = name_and_ratio().invoke(|_call| {
        calls += 1;
        Ok(Value::List(vec![row(vec![double(2.0), text("a")])]))
    });
    assert!(res.is_err());
    assert_eq!(calls, 1);
}

#[test]
fn a_failing_transport_fails_the_call() {
    let mut calls = 0;
    let res = name_and_ratio().invoke(|_call| {
        calls += 1;
        Err(transport_failure())
    });
    assert_eq!(calls, 1);
    match res {
        Err(err) => {
            assert!(matches!(err, Error::XmlRpc(_)));
            assert!(err.source().is_some());
            assert_eq!(err.to_string(), "XML-RPC: transport error: connection refused");
        }
        Ok(set) => panic!("expected a failure, got {:?}", set),
    }
}

#[test]
fn text_where_a_double_was_declared_is_refused() {
    let response = Value::List(vec![row(vec![text("Ubuntu.iso"), text("1.5")])]);
    let msg = refusal(name_and_ratio().invoke(|_call| Ok(response)));
    assert_eq!(msg, "expected double, got text");
}

#[test]
fn text_where_an_integer_was_declared_is_refused() {
    let server = Server::new("http://localhost/RPC2");
    let builder =
        MultiBuilder::new(&server, "main").add_column(DownloadField::SizeBytes.operation());
    let response = Value::List(vec![row(vec![text("1024")])]);
    let msg = refusal(builder.invoke(|_call| Ok(response)));
    assert_eq!(msg, "expected integer, got text");
}

#[test]
fn the_first_misfit_of_a_row_decides_the_error() {
    let response = Value::List(vec![row(vec![Value::Bool(true), Value::Int64(3)])]);
    let msg = refusal(name_and_ratio().invoke(|_call| Ok(response)));
    assert_eq!(msg, "expected text, got boolean");
}

#[test]
fn the_first_bad_row_decides_the_error() {
    let response = Value::List(vec![
        row(vec![text("a"), double(1.0)]),
        row(vec![text("b"), Value::Int64(1)]),
        row(vec![text("c")]),
        Value::Other,
    ]);
    let msg = refusal(name_and_ratio().invoke(|_call| Ok(response)));
    assert_eq!(msg, "expected double, got integer");
}

#[test]
fn an_answer_that_is_no_list_is_refused() {
    let msg = refusal(name_and_ratio().invoke(|_call| Ok(text("ok"))));
    assert_eq!(msg, "expected list, got text");
}

#[test]
fn a_row_that_is_no_list_is_refused() {
    let response = Value::List(vec![row(vec![text("a"), double(1.0)]), Value::Int64(5)]);
    let msg = refusal(name_and_ratio().invoke(|_call| Ok(response)));
    assert_eq!(msg, "expected list, got integer");
}

#[test]
fn no_columns_and_rows_of_no_values_give_empty_rows() {
    let server = Server::new("http://1.2.3.4/RPC2");
    let builder = MultiBuilder::new(&server, "default");
    let response = Value::List(vec![row(vec![]), row(vec![]), row(vec![])]);
    let set = builder.invoke(|_call| Ok(response)).unwrap();
    assert_eq!(set.len(), 3);
    assert!(!set.is_empty());
    assert!(set.column_types().is_empty());
    for index in 0..3 {
        assert!(set.get(index).unwrap().is_empty());
    }
}

#[test]
fn no_columns_and_a_row_with_a_value_are_refused() {
    let server = Server::new("http://1.2.3.4/RPC2");
    let builder = MultiBuilder::new(&server, "default");
    let response = Value::List(vec![row(vec![]), row(vec![Value::Int64(1)])]);
    let msg = refusal(builder.invoke(|_call| Ok(response)));
    assert_eq!(msg, "row width differs from the number of declared columns");
}

#[test]
fn no_columns_send_only_the_placeholder_and_the_filter() {
    let server = Server::new("http://1.2.3.4/RPC2");
    let call = MultiBuilder::new(&server, "stopped").request();
    assert_eq!(call.method_name, "d.multicall2");
    assert_eq!(call.args, vec![text(""), text("stopped")]);
}

#[test]
fn an_answer_without_rows_gives_an_empty_set() {
    let set = name_and_ratio().invoke(|_call| Ok(Value::List(vec![]))).unwrap();
    assert_eq!(set.len(), 0);
    assert!(set.is_empty());
    assert!(set.get(0).is_none());
    assert_eq!(set.column_types(), &vec![ResultType::Text, ResultType::Float64]);
}

#[test]
fn every_type_is_decoded_at_its_position() {
    let server = Server::new("http://1.2.3.4/RPC2");
    let builder = MultiBuilder::for_kind(&server, EntityKind::Peer, "0123ABCD")
        .add_column(Operation::new(EntityKind::Peer, "address", ResultType::Text))
        .add_column(Operation::new(EntityKind::Peer, "port", ResultType::Int64))
        .add_column(Operation::new(EntityKind::Peer, "completed_percent", ResultType::Float64))
        .add_column(Operation::new(EntityKind::Peer, "is_encrypted", ResultType::Bool))
        .add_column(Operation::new(EntityKind::Peer, "id", ResultType::Bytes))
        .add_column(Operation::new(EntityKind::Peer, "up_rate", ResultType::Int64));
    let response = Value::List(vec![row(vec![
        text("10.0.0.1"),
        Value::Int32(6881),
        double(99.5),
        Value::Bool(true),
        Value::Bytes(vec![1, 2, 3]),
        Value::Int64(1 << 33),
    ])]);
    let set = builder.invoke(|_call| Ok(response)).unwrap();
    assert_eq!(
        set.column_types(),
        &vec![
            ResultType::Text,
            ResultType::Int64,
            ResultType::Float64,
            ResultType::Bool,
            ResultType::Bytes,
            ResultType::Int64,
        ]
    );
    assert_eq!(
        set.get(0).unwrap(),
        &vec![
            TypedValue::Text("10.0.0.1".to_string()),
            TypedValue::Int64(6881),
            TypedValue::Float64(99.5f64.to_bits()),
            TypedValue::Bool(true),
            TypedValue::Bytes(vec![1, 2, 3]),
            TypedValue::Int64(8589934592),
        ]
    );
}

#[test]
fn every_value_of_a_set_has_the_type_of_its_column() {
    let response = Value::List(vec![
        row(vec![text("a"), double(1.0)]),
        row(vec![text("b"), double(2.0)]),
        row(vec![text("c"), double(3.0)]),
    ]);
    let set = name_and_ratio().invoke(|_call| Ok(response)).unwrap();
    for cells in set.rows() {
        assert_eq!(cells.len(), set.column_types().len());
        for (cell, declared) in cells.iter().zip(set.column_types()) {
            assert_eq!(cell.result_type(), *declared);
        }
    }
}

#[test]
fn rows_keep_the_order_of_the_answer() {
    let server = Server::new("http://1.2.3.4/RPC2");
    let builder = MultiBuilder::new(&server, "name").add_column(DownloadField::Hash.operation());
    let names = ["c", "a", "b", "a"];
    let response = Value::List(names.iter().map(|n| row(vec![text(n)])).collect());
    let set = builder.invoke(|_call| Ok(response)).unwrap();
    assert_eq!(set.len(), 4);
    for (index, name) in names.iter().enumerate() {
        assert_eq!(set.get(index).unwrap(), &vec![TypedValue::Text(name.to_string())]);
    }
    assert!(set.get(4).is_none());
}

#[test]
fn a_set_can_be_walked_again() {
    let response = Value::List(vec![
        row(vec![text("Ubuntu.iso"), double(1.5)]),
        row(vec![text("Debian.iso"), double(0.0)]),
    ]);
    let set = name_and_ratio().invoke(|_call| Ok(response)).unwrap();
    let first: Vec<TypedValue> = set.rows().iter().map(|cells| cells[0].clone()).collect();
    let second: Vec<TypedValue> = set.rows().iter().map(|cells| cells[0].clone()).collect();
    assert_eq!(first, second);
    assert_eq!(first.len(), 2);
}

#[test]
fn columns_are_kept_in_the_order_of_declaration() {
    let server = Server::new("http://1.2.3.4/RPC2");
    let builder = MultiBuilder::new(&server, "default")
        .add_column(DownloadField::UpTotal.operation())
        .add_column(DownloadField::Name.operation())
        .add_column(DownloadField::UpTotal.operation());
    let names: Vec<&str> = builder.columns().iter().map(|op| op.remote_name()).collect();
    assert_eq!(names, vec!["d.up.total", "d.name", "d.up.total"]);
    let call = builder.request();
    assert_eq!(
        call.args,
        vec![text(""), text("default"), text("d.up.total"), text("d.name"), text("d.up.total")]
    );
}

#[test]
fn a_new_builder_has_no_columns() {
    let server = Server::new("http://1.2.3.4/RPC2");
    assert!(MultiBuilder::new(&server, "default").columns().is_empty());
    assert!(MultiBuilder::for_kind(&server, EntityKind::Tracker, "0123ABCD").columns().is_empty());
}

#[test]
fn a_builder_accepts_the_fields_of_its_own_kind_only() {
    let server = Server::new("http://1.2.3.4/RPC2");
    let downloads = MultiBuilder::new(&server, "default");
    assert!(downloads.accepts(&DownloadField::Name.operation()));
    assert!(!downloads.accepts(&Operation::new(EntityKind::File, "path", ResultType::Text)));
    let files = MultiBuilder::for_kind(&server, EntityKind::File, "0123ABCD");
    assert!(files.accepts(&Operation::new(EntityKind::File, "path", ResultType::Text)));
    assert!(!files.accepts(&DownloadField::Name.operation()));
}

#[test]
fn every_kind_is_read_by_its_own_multicall() {
    let server = Server::new("http://1.2.3.4/RPC2");
    let kinds = [
        (EntityKind::Download, "d.multicall2"),
        (EntityKind::File, "f.multicall2"),
        (EntityKind::Peer, "p.multicall2"),
        (EntityKind::Tracker, "t.multicall2"),
    ];
    for (kind, method) in kinds {
        let call = MultiBuilder::for_kind(&server, kind, "0123ABCD").request();
        assert_eq!(call.method_name, method);
        assert_eq!(call.endpoint, "http://1.2.3.4/RPC2");
        assert_eq!(call.args, vec![text(""), text("0123ABCD")]);
    }
}

#[test]
fn the_filter_is_passed_as_it_is() {
    let server = Server::new("http://1.2.3.4/RPC2");
    let call = MultiBuilder::new(&server, " odd view=\"x\" ").request();
    assert_eq!(call.args[1], text(" odd view=\"x\" "));
}

#[test]
fn rows_are_decoded_against_the_columns() {
    let columns = vec![DownloadField::Name.operation(), DownloadField::State.operation()];
    let raw = vec![row(vec![text("a"), Value::Bool(false)])];
    let set = decode(&raw, &columns).unwrap();
    assert_eq!(set.len(), 1);
    assert_eq!(
        set.get(0).unwrap(),
        &vec![TypedValue::Text("a".to_string()), TypedValue::Bool(false)]
    );
    let raw = vec![row(vec![text("a"), Value::Int64(0)])];
    assert_eq!(refusal(decode(&raw, &columns)), "expected boolean, got integer");
}

#[test]
fn one_row_is_decoded_against_the_types() {
    let types = vec![ResultType::Int64, ResultType::Bytes];
    let cells = decode_row(&row(vec![Value::Int32(-1), Value::Bytes(vec![7])]), &types).unwrap();
    assert_eq!(cells, vec![TypedValue::Int64(-1), TypedValue::Bytes(vec![7])]);
    match decode_row(&row(vec![Value::Int32(-1)]), &types) {
        Err(Error::UnexpectedStructure(msg)) => {
            assert_eq!(msg, "row width differs from the number of declared columns")
        }
        other => panic!("expected a refusal, got {:?}", other),
    }
    match decode_row(&row(vec![Value::Int32(-1), text("x")]), &types) {
        Err(Error::UnexpectedStructure(msg)) => assert_eq!(msg, "expected binary data, got text"),
        other => panic!("expected a refusal, got {:?}", other),
    }
    match decode_row(&Value::Other, &types) {
        Err(Error::UnexpectedStructure(msg)) => {
            assert_eq!(msg, "expected list, got unsupported value")
        }
        other => panic!("expected a refusal, got {:?}", other),
    }
}

#[test]
fn an_outcome_is_completed_against_the_columns() {
    let columns = vec![DownloadField::IsOpen.operation()];
    let set = complete(&columns, Ok(Value::List(vec![row(vec![Value::Bool(true)])]))).unwrap();
    assert_eq!(set.rows(), &vec![vec![TypedValue::Bool(true)]]);
    assert!(matches!(complete(&columns, Err(transport_failure())), Err(Error::XmlRpc(_))));
    assert_eq!(refusal(complete(&columns, Ok(Value::Other))), "expected list, got unsupported value");
}

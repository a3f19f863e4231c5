use db_gateway::error::GatewayError;
use db_gateway::keyvalue::{
    classify_tag, delete, format_reply, get_ttl, get_value, key_type, list_keys, parse_command, ping,
    read_integer, rename, render_value_reply, set_string, Command, CommandPlan, Reply, ValueReply, ValueShape,
};

fn command(name: &str, args: &[&str]) -> Command {
    Command { name: name.to_string(), args: args.iter().map(|a| a.to_string()).collect() }
}

#[test]
fn plain_commands() {
    assert_eq!(ping(), command("PING", &[]));
    assert_eq!(list_keys("user:*"), command("KEYS", &["user:*"]));
    assert_eq!(key_type("k"), command("TYPE", &["k"]));
    assert_eq!(set_string("k", "v w"), command("SET", &["k", "v w"]));
    assert_eq!(delete("k"), command("DEL", &["k"]));
    assert_eq!(rename("old", "new"), command("RENAME", &["old", "new"]));
    assert_eq!(get_ttl("k"), command("TTL", &["k"]));
}

#[test]
fn type_tags() {
    assert_eq!(classify_tag("string"), ValueShape::Text);
    assert_eq!(classify_tag("hash"), ValueShape::Hash);
    assert_eq!(classify_tag("list"), ValueShape::List);
    assert_eq!(classify_tag("set"), ValueShape::UnorderedSet);
    assert_eq!(classify_tag("zset"), ValueShape::SortedSet);
    assert_eq!(classify_tag("stream"), ValueShape::Unsupported);
    assert_eq!(classify_tag("none"), ValueShape::Unsupported);
    assert_eq!(classify_tag("String"), ValueShape::Unsupported);
    assert_eq!(classify_tag(""), ValueShape::Unsupported);
}

#[test]
fn get_value_reads_by_type() {
    assert_eq!(get_value("string", "k"), CommandPlan::Read(ValueShape::Text, command("GET", &["k"])));
    assert_eq!(get_value("hash", "k"), CommandPlan::Read(ValueShape::Hash, command("HGETALL", &["k"])));
    assert_eq!(
        get_value("list", "k"),
        CommandPlan::Read(ValueShape::List, command("LRANGE", &["k", "0", "-1"]))
    );
    assert_eq!(
        get_value("set", "k"),
        CommandPlan::Read(ValueShape::UnorderedSet, command("SMEMBERS", &["k"]))
    );
    assert_eq!(
        get_value("zset", "k"),
        CommandPlan::Read(ValueShape::SortedSet, command("ZRANGE", &["k", "0", "-1"]))
    );
}

#[test]
fn get_value_of_an_unsupported_type_names_the_type() {
    assert_eq!(get_value("stream", "k"), CommandPlan::Answer("Unsupported type: stream".to_string()));
    assert_eq!(get_value("none", "k"), CommandPlan::Answer("Unsupported type: none".to_string()));
}

#[test]
fn value_of_a_string_is_the_string() {
    assert_eq!(render_value_reply(&ValueReply::Text("plain \"text\"".to_string())), "plain \"text\"");
}

#[test]
fn value_of_a_list_parses_as_the_list() {
    let text = render_value_reply(&ValueReply::Members(vec!["x".to_string(), "y".to_string()]));
    let parsed: serde_json::Value = serde_json::from_str(&text).unwrap();
    let expected = serde_json::Value::Array(vec![
        serde_json::Value::String("x".to_string()),
        serde_json::Value::String("y".to_string()),
    ]);
    assert_eq!(parsed, expected);
}

#[test]
fn value_of_a_hash_parses_as_the_hash() {
    let text = render_value_reply(&ValueReply::Fields(vec![
        ("a".to_string(), "1".to_string()),
        ("b".to_string(), "2".to_string()),
    ]));
    let parsed: serde_json::Value = serde_json::from_str(&text).unwrap();
    let mut expected = serde_json::Map::new();
    expected.insert("a".to_string(), serde_json::Value::String("1".to_string()));
    expected.insert("b".to_string(), serde_json::Value::String("2".to_string()));
    assert_eq!(parsed, serde_json::Value::Object(expected));
}

#[test]
fn parse_command_splits_on_whitespace() {
    assert_eq!(parse_command("GET k"), Ok(command("GET", &["k"])));
    assert_eq!(parse_command("  LRANGE   k 0\t-1 \n"), Ok(command("LRANGE", &["k", "0", "-1"])));
    assert_eq!(parse_command("PING"), Ok(command("PING", &[])));
    assert_eq!(parse_command("SET k \"a b\""), Ok(command("SET", &["k", "\"a", "b\""])));
}

#[test]
fn parse_command_of_an_empty_line_fails() {
    assert_eq!(parse_command(""), Err(GatewayError::EmptyCommand));
    assert_eq!(parse_command(" \t\n"), Err(GatewayError::EmptyCommand));
}

#[test]
fn format_reply_of_each_kind() {
    assert_eq!(format_reply(&Reply::Nil), "(nil)");
    assert_eq!(format_reply(&Reply::Int(-5)), "-5");
    assert_eq!(format_reply(&Reply::Int(0)), "0");
    assert_eq!(format_reply(&Reply::Bulk(b"hello".to_vec())), "hello");
    assert_eq!(format_reply(&Reply::Bulk(vec![b'a', 0xff])), "a\u{fffd}");
    assert_eq!(format_reply(&Reply::Simple("PONG".to_string())), "PONG");
    assert_eq!(format_reply(&Reply::Okay), "OK");
    assert_eq!(format_reply(&Reply::Other("double(1.5)".to_string())), "double(1.5)");
}

#[test]
fn format_reply_of_arrays() {
    assert_eq!(format_reply(&Reply::Array(vec![])), "[]");
    assert_eq!(format_reply(&Reply::Array(vec![Reply::Int(1)])), "[1]");
    let nested = Reply::Array(vec![
        Reply::Bulk(b"a".to_vec()),
        Reply::Nil,
        Reply::Array(vec![Reply::Int(1), Reply::Okay]),
        Reply::Array(vec![]),
    ]);
    assert_eq!(format_reply(&nested), "[a, (nil), [1, OK], []]");
}

#[test]
fn deleting_an_absent_key_reports_zero_not_an_error() {
    assert_eq!(read_integer(&Reply::Int(0)), Ok(0));
    assert_eq!(read_integer(&Reply::Int(0)), read_integer(&Reply::Int(0)));
}

#[test]
fn read_integer_takes_the_number_of_the_reply() {
    assert_eq!(read_integer(&Reply::Int(1)), Ok(1));
    assert_eq!(read_integer(&Reply::Int(-2)), Ok(-2));
    let failed = Err(GatewayError::Query("the reply is not an integer".to_string()));
    assert_eq!(read_integer(&Reply::Nil), failed);
    assert_eq!(read_integer(&Reply::Bulk(b"1".to_vec())), failed);
    assert_eq!(read_integer(&Reply::Okay), failed);
    assert_eq!(read_integer(&Reply::Array(vec![Reply::Int(1)])), failed);
}

//! The key-value adapter: the commands it sends, how a value is read by its
//! native type, and how a raw reply reads.

use crate::error::{result_view, ErrorModel, GatewayError};
use crate::json::{field_texts, fields_json, render_fields, render_strings, strings_json};
use crate::text::{
    decode_lossy, join, joined, push_signed_decimal, signed_decimal, split_whitespace, text_eq, texts,
    utf8_lossy, words,
};
use vstd::prelude::*;
use vstd::string::*;

verus! {

/// One command: its name and its arguments.
#[derive(Debug, Clone, PartialEq, Eq)]
pub struct Command {
    pub name: String,
    pub args: Vec<String>,
}

/// The mathematical model of a [`Command`].
pub struct CommandModel {
    pub name: Seq<char>,
    pub args: Seq<Seq<char>>,
}

impl View for Command {
    type V = CommandModel;

    open spec fn view(&self) -> CommandModel {
        CommandModel { name: self.name@, args: texts(self.args@) }
    }
}

fn command(name: &str, args: Vec<String>) -> (r: Command)
    ensures
        r@ == (CommandModel { name: name@, args: texts(args@) }),
{
    Command { name: String::from_str(name), args }
}

fn unary(name: &str, a: &str) -> (r: Command)
    ensures
        r@ == (CommandModel { name: name@, args: seq![a@] }),
{
    let mut args: Vec<String> = Vec::new();
    args.push(String::from_str(a));
    assert(texts(args@) == seq![a@]);
    command(name, args)
}

fn binary(name: &str, a: &str, b: &str) -> (r: Command)
    ensures
        r@ == (CommandModel { name: name@, args: seq![a@, b@] }),
{
    let mut args: Vec<String> = Vec::new();
    args.push(String::from_str(a));
    args.push(String::from_str(b));
    assert(texts(args@) == seq![a@, b@]);
    command(name, args)
}

fn whole_range(name: &str, key: &str) -> (r: Command)
    ensures
        r@ == (CommandModel { name: name@, args: seq![key@, "0"@, "-1"@] }),
{
    let mut args: Vec<String> = Vec::new();
    args.push(String::from_str(key));
    args.push(String::from_str("0"));
    args.push(String::from_str("-1"));
    assert(texts(args@) == seq![key@, "0"@, "-1"@]);
    command(name, args)
}

/// The command that checks a new connection.
pub fn ping() -> (r: Command)
    ensures
        r@ == (CommandModel { name: "PING"@, args: Seq::empty() }),
{
    let args: Vec<String> = Vec::new();
    assert(texts(args@) == Seq::<Seq<char>>::empty());
    command("PING", args)
}

/// The command that lists the keys matching a pattern.
pub fn list_keys(pattern: &str) -> (r: Command)
    ensures
        r@ == (CommandModel { name: "KEYS"@, args: seq![pattern@] }),
{
    unary("KEYS", pattern)
}

/// The command that asks for a key's native type.
pub fn key_type(key: &str) -> (r: Command)
    ensures
        r@ == (CommandModel { name: "TYPE"@, args: seq![key@] }),
{
    unary("TYPE", key)
}

/// The command that writes a string value.
pub fn set_string(key: &str, value: &str) -> (r: Command)
    ensures
        r@ == (CommandModel { name: "SET"@, args: seq![key@, value@] }),
{
    binary("SET", key, value)
}

/// The command that deletes a key.
pub fn delete(key: &str) -> (r: Command)
    ensures
        r@ == (CommandModel { name: "DEL"@, args: seq![key@] }),
{
    unary("DEL", key)
}

/// The command that renames a key.
pub fn rename(old_key: &str, new_key: &str) -> (r: Command)
    ensures
        r@ == (CommandModel { name: "RENAME"@, args: seq![old_key@, new_key@] }),
{
    binary("RENAME", old_key, new_key)
}

/// The command that asks for a key's remaining time to live, in seconds.
pub fn get_ttl(key: &str) -> (r: Command)
    ensures
        r@ == (CommandModel { name: "TTL"@, args: seq![key@] }),
{
    unary("TTL", key)
}

/// The native type of a key, as far as the adapter reads it.
#[derive(Debug, Clone, Copy, PartialEq, Eq, Structural)]
pub enum ValueShape {
    Text,
    Hash,
    List,
    UnorderedSet,
    SortedSet,
    Unsupported,
}

/// The shape that a type tag stands for.
pub open spec fn shape_of(tag: Seq<char>) -> ValueShape {
    if tag == "string"@ {
        ValueShape::Text
    } else if tag == "hash"@ {
        ValueShape::Hash
    } else if tag == "list"@ {
        ValueShape::List
    } else if tag == "set"@ {
        ValueShape::UnorderedSet
    } else if tag == "zset"@ {
        ValueShape::SortedSet
    } else {
        ValueShape::Unsupported
    }
}

/// Reads a type tag.
pub fn classify_tag(tag: &str) -> (r: ValueShape)
    ensures
        r == shape_of(tag@),
{
    if text_eq(tag, "string") {
        ValueShape::Text
    } else if text_eq(tag, "hash") {
        ValueShape::Hash
    } else if text_eq(tag, "list") {
        ValueShape::List
    } else if text_eq(tag, "set") {
        ValueShape::UnorderedSet
    } else if text_eq(tag, "zset") {
        ValueShape::SortedSet
    } else {
        ValueShape::Unsupported
    }
}

/// The text that stands for a value of a type that the adapter does not read.
pub open spec fn unsupported_text(tag: Seq<char>) -> Seq<char> {
    "Unsupported type: "@ + tag
}

/// What to do for a request.
#[derive(Debug, Clone, PartialEq, Eq)]
pub enum CommandPlan {
    /// Send the command.
    Send(Command),
    /// Send the command and read the reply as a value of the given shape.
    Read(ValueShape, Command),
    /// The answer is known without a command.
    Answer(String),
}

/// The mathematical model of a [`CommandPlan`].
pub enum CommandPlanModel {
    Send(CommandModel),
    Read(ValueShape, CommandModel),
    Answer(Seq<char>),
}

impl View for CommandPlan {
    type V = CommandPlanModel;

    open spec fn view(&self) -> CommandPlanModel {
        match self {
            CommandPlan::Send(c) => CommandPlanModel::Send(c@),
            CommandPlan::Read(shape, c) => CommandPlanModel::Read(*shape, c@),
            CommandPlan::Answer(t) => CommandPlanModel::Answer(t@),
        }
    }
}

/// The step that reads the value of `key`, whose type tag is `tag`: the whole
/// of a string, hash, list, set or sorted set; for any other type, a text that
/// names the type in place of the value.
pub open spec fn value_step(tag: Seq<char>, key: Seq<char>) -> CommandPlanModel {
    match shape_of(tag) {
        ValueShape::Text => CommandPlanModel::Read(
            ValueShape::Text,
            CommandModel { name: "GET"@, args: seq![key] },
        ),
        ValueShape::Hash => CommandPlanModel::Read(
            ValueShape::Hash,
            CommandModel { name: "HGETALL"@, args: seq![key] },
        ),
        ValueShape::List => CommandPlanModel::Read(
            ValueShape::List,
            CommandModel { name: "LRANGE"@, args: seq![key, "0"@, "-1"@] },
        ),
        ValueShape::UnorderedSet => CommandPlanModel::Read(
            ValueShape::UnorderedSet,
            CommandModel { name: "SMEMBERS"@, args: seq![key] },
        ),
        ValueShape::SortedSet => CommandPlanModel::Read(
            ValueShape::SortedSet,
            CommandModel { name: "ZRANGE"@, args: seq![key, "0"@, "-1"@] },
        ),
        ValueShape::Unsupported => CommandPlanModel::Answer(unsupported_text(tag)),
    }
}

/// Decides how the value of `key` is read, given its type tag.
pub fn get_value(tag: &str, key: &str) -> (r: CommandPlan)
    ensures
        r@ == value_step(tag@, key@),
{
    match classify_tag(tag) {
        ValueShape::Text => CommandPlan::Read(ValueShape::Text, unary("GET", key)),
        ValueShape::Hash => CommandPlan::Read(ValueShape::Hash, unary("HGETALL", key)),
        ValueShape::List => CommandPlan::Read(ValueShape::List, whole_range("LRANGE", key)),
        ValueShape::UnorderedSet => CommandPlan::Read(ValueShape::UnorderedSet, unary("SMEMBERS", key)),
        ValueShape::SortedSet => CommandPlan::Read(ValueShape::SortedSet, whole_range("ZRANGE", key)),
        ValueShape::Unsupported => {
            let mut out = String::from_str("Unsupported type: ");
            out.append(tag);
            CommandPlan::Answer(out)
        },
    }
}

/// What was read of a value: a string, the members of a list, set or sorted
/// set, or the fields of a hash.
#[derive(Debug, Clone, PartialEq, Eq)]
pub enum ValueReply {
    Text(String),
    Members(Vec<String>),
    Fields(Vec<(String, String)>),
}

/// How a value is handed out: a string as it is, members as a JSON array of
/// strings, fields as a JSON object of strings.
pub open spec fn value_text(reply: ValueReply) -> Seq<char> {
    match reply {
        ValueReply::Text(t) => t@,
        ValueReply::Members(items) => strings_json(texts(items@)),
        ValueReply::Fields(fields) => fields_json(field_texts(fields@)),
    }
}

/// Writes a value as it is handed out.
pub fn render_value_reply(reply: &ValueReply) -> (r: String)
    ensures
        r@ == value_text(*reply),
{
    match reply {
        ValueReply::Text(t) => t.clone(),
        ValueReply::Members(items) => render_strings(items),
        ValueReply::Fields(fields) => render_fields(fields),
    }
}

/// The command that a line stands for: its first word is the name, the other
/// words are the arguments. A line without a word stands for none.
pub open spec fn parsed_command(line: Seq<char>) -> Result<CommandModel, ErrorModel> {
    if words(line).len() == 0 {
        Err(ErrorModel::EmptyCommand)
    } else {
        Ok(CommandModel { name: words(line)[0], args: words(line).skip(1) })
    }
}

/// The view of a parsed command line.
pub open spec fn command_result(r: Result<Command, GatewayError>) -> Result<CommandModel, ErrorModel> {
    match r {
        Ok(c) => Ok(c@),
        Err(e) => Err(e@),
    }
}

/// Splits a raw command line on whitespace into a command. There is no
/// quoting: an argument cannot hold whitespace.
pub fn parse_command(line: &str) -> (r: Result<Command, GatewayError>)
    ensures
        command_result(r) == parsed_command(line@),
{
    let mut parts = split_whitespace(line);
    if parts.len() == 0 {
        return Err(GatewayError::EmptyCommand);
    }
    let ghost all = parts@;
    let name = parts.remove(0);
    assert(texts(parts@) == texts(all).skip(1));
    Ok(Command { name, args: parts })
}

/// A reply to a raw command. `Other` holds the diagnostic text of a reply of
/// any further kind.
#[derive(Debug, PartialEq, Eq)]
pub enum Reply {
    Nil,
    Int(i64),
    Bulk(Vec<u8>),
    Array(Vec<Reply>),
    Simple(String),
    Okay,
    Other(String),
}

/// How a reply reads: `(nil)` for nil, the numeral of an integer, the bytes of
/// a bulk string read leniently as UTF-8, the items of an array between
/// brackets with `, ` between them, a simple string as it is, `OK`, and the
/// diagnostic text of anything else.
pub open spec fn formatted(reply: Reply) -> Seq<char>
    decreases reply,
{
    match reply {
        Reply::Nil => "(nil)"@,
        Reply::Int(i) => signed_decimal(i as int),
        Reply::Bulk(bytes) => utf8_lossy(bytes@),
        Reply::Array(items) => "["@ + joined(formatted_all(items@), ", "@) + "]"@,
        Reply::Simple(t) => t@,
        Reply::Okay => "OK"@,
        Reply::Other(t) => t@,
    }
}

/// How each of a sequence of replies reads.
pub open spec fn formatted_all(items: Seq<Reply>) -> Seq<Seq<char>>
    decreases items,
{
    if items.len() == 0 {
        Seq::empty()
    } else {
        formatted_all(items.drop_last()).push(formatted(items.last()))
    }
}

/// The number that a reply holds, where it is an integer; any other reply is
/// a failed command.
pub open spec fn counted_reply(reply: Reply) -> Result<i64, ErrorModel> {
    match reply {
        Reply::Int(n) => Ok(n),
        _ => Err(ErrorModel::Query("the reply is not an integer"@)),
    }
}

/// Deleting a key that is not there is no failure: the reply that no key
/// was removed reads as the count 0, each time it is given.
pub proof fn absent_key_is_no_failure()
    ensures
        counted_reply(Reply::Int(0)) == Ok::<i64, ErrorModel>(0),
{
}

/// Reads the number out of the reply to a command that answers with one: the
/// keys that `DEL` removed, the seconds that `TTL` reports. Zero removed keys
/// is a success like any other count: deleting an absent key is no failure.
pub fn read_integer(reply: &Reply) -> (r: Result<i64, GatewayError>)
    ensures
        result_view(r) == counted_reply(*reply),
{
    match reply {
        Reply::Int(n) => Ok(*n),
        _ => Err(GatewayError::Query(String::from_str("the reply is not an integer"))),
    }
}

/// Writes a reply for a reader.
pub fn format_reply(reply: &Reply) -> (r: String)
    ensures
        r@ == formatted(*reply),
    decreases reply,
{
    match reply {
        Reply::Nil => String::from_str("(nil)"),
        Reply::Int(i) => {
            let mut out = String::new();
            push_signed_decimal(&mut out, *i);
            out
        },
        Reply::Bulk(bytes) => decode_lossy(bytes),
        Reply::Array(items) => {
            let mut parts: Vec<String> = Vec::new();
            let mut i: usize = 0;
            while i < items.len()
                invariant
                    i <= items.len(),
                    *reply is Array,
                    reply->Array_0 == *items,
                    texts(parts@) == formatted_all(items@.take(i as int)),
                decreases items.len() - i,
            {
                assert(items@.take(i + 1).drop_last() == items@.take(i as int));
                let part = format_reply(&items[i]);
                parts.push(part);
                i += 1;
            }
            assert(items@.take(i as int) == items@);
            let mut out = String::from_str("[");
            out.append(join(&parts, ", ").as_str());
            out.append("]");
            out
        },
        Reply::Simple(t) => t.clone(),
        Reply::Okay => String::from_str("OK"),
        Reply::Other(t) => t.clone(),
    }
}

} // verus!

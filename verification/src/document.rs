//! TOML documents as trees of plain values.
//!
//! The `toml` crate reads the text. Its values are copied, level by level,
//! into a [`Node`], on which the rest of the library works.

use vstd::prelude::*;
use crate::errors::ConfigError;
use crate::text::same_text;

verus! {

/// `toml::Value`, a value of the `toml` crate. Nothing is known of what is
/// inside but through [`toml_content`].
#[verifier::external_type_specification]
#[verifier::external_body]
pub struct ExTomlValue(toml::Value);

/// `toml::de::Error`, the error of `toml::from_str`. It is carried, never read.
#[verifier::external_type_specification]
#[verifier::external_body]
pub struct ExTomlError(toml::de::Error);

/// What a TOML value holds: a text, an integer, a truth value, the mere fact
/// that it is a float or a date, the items of an array, or the entries of a
/// table with their keys.
pub enum Tree {
    Text(Seq<char>),
    Integer(i64),
    Float,
    Boolean(bool),
    Datetime,
    Array(Seq<Tree>),
    Table(Seq<(Seq<char>, Tree)>),
}

/// A TOML value. Of a float and of a date only the kind is kept.
#[derive(Debug)]
pub enum Node {
    Text(String),
    Integer(i64),
    Float,
    Boolean(bool),
    Datetime,
    Array(Vec<Node>),
    Table(Vec<(String, Node)>),
}

/// What `node` holds.
pub open spec fn tree_of(node: Node) -> Tree
    decreases node, 0nat,
{
    match node {
        Node::Text(text) => Tree::Text(text@),
        Node::Integer(i) => Tree::Integer(i),
        Node::Float => Tree::Float,
        Node::Boolean(b) => Tree::Boolean(b),
        Node::Datetime => Tree::Datetime,
        Node::Array(items) => Tree::Array(trees_of(items@)),
        Node::Table(entries) => Tree::Table(table_of(entries@)),
    }
}

/// What the items of an array hold, in order.
pub open spec fn trees_of(items: Seq<Node>) -> Seq<Tree>
    decreases items, 1nat,
{
    Seq::new(
        items.len(),
        |i: int|
            if 0 <= i < items.len() {
                tree_of(items[i])
            } else {
                arbitrary()
            },
    )
}

/// What the entries of a table hold, in order.
pub open spec fn table_of(entries: Seq<(String, Node)>) -> Seq<(Seq<char>, Tree)>
    decreases entries, 1nat,
{
    Seq::new(
        entries.len(),
        |i: int|
            if 0 <= i < entries.len() {
                (entries[i].0@, tree_of(entries[i].1))
            } else {
                arbitrary()
            },
    )
}

impl View for Node {
    type V = Tree;

    open spec fn view(&self) -> Tree {
        tree_of(*self)
    }
}

/// The document that the TOML text `text` writes, `None` where the text is not
/// TOML. It stands for what `toml::from_str` makes of the text.
pub uninterp spec fn toml_document(text: Seq<char>) -> Option<Tree>;

/// What a value of the `toml` crate holds.
pub uninterp spec fn toml_content(value: toml::Value) -> Tree;

/// Calls `toml::from_str` for a `toml::Value`. The contract gives the outcome
/// its name: the call succeeds exactly on the texts that `toml_document` knows,
/// with a value that holds that document.
#[verifier::external_body]
fn read_toml(text: &str) -> (outcome: Result<toml::Value, toml::de::Error>)
    ensures
        match outcome {
            Ok(value) => toml_document(text@) == Some(toml_content(value)),
            Err(_) => toml_document(text@) is None,
        },
{
    toml::from_str::<toml::Value>(text)
}

/// The outermost level of a `toml::Value`: its kind, and what it holds of
/// plain values or of further values.
enum Opened<'a> {
    Text(&'a String),
    Integer(i64),
    Float,
    Boolean(bool),
    Datetime,
    Array(&'a Vec<toml::Value>),
    Table(Vec<(&'a String, &'a toml::Value)>),
}

/// The tree of a value that was opened: its own level as it stands, and below
/// it the content of each value that it holds.
spec fn opened_tree(opened: Opened) -> Tree {
    match opened {
        Opened::Text(text) => Tree::Text(text@),
        Opened::Integer(i) => Tree::Integer(i),
        Opened::Float => Tree::Float,
        Opened::Boolean(b) => Tree::Boolean(b),
        Opened::Datetime => Tree::Datetime,
        Opened::Array(items) => Tree::Array(
            items@.map_values(|item: toml::Value| toml_content(item)),
        ),
        Opened::Table(entries) => Tree::Table(
            entries@.map_values(
                |entry: (&String, &toml::Value)| (entry.0@, toml_content(*entry.1)),
            ),
        ),
    }
}

/// Tells the variants of a `toml::Value` apart and hands out what the value
/// holds; for a table, the entries as `toml::map::Map::iter` yields them. The
/// contract says that this is the value's content: its kind is the variant,
/// its text, integer or truth value is the field, and its items or entries are
/// those handed out, in their order. Of a float and of a date only the kind
/// counts as content.
#[verifier::external_body]
fn open<'a>(value: &'a toml::Value) -> (opened: Opened<'a>)
    ensures
        toml_content(*value) == opened_tree(opened),
{
    match value {
        toml::Value::String(text) => Opened::Text(text),
        toml::Value::Integer(i) => Opened::Integer(*i),
        toml::Value::Float(_) => Opened::Float,
        toml::Value::Boolean(b) => Opened::Boolean(*b),
        toml::Value::Datetime(_) => Opened::Datetime,
        toml::Value::Array(items) => Opened::Array(items),
        toml::Value::Table(table) => Opened::Table(table.iter().collect()),
    }
}

/// Copies a value of the `toml` crate into a tree of the library's own.
fn lift(value: &toml::Value) -> (node: Node)
    ensures
        node@ == toml_content(*value),
    decreases toml_content(*value),
{
    match open(value) {
        Opened::Text(text) => Node::Text(text.clone()),
        Opened::Integer(i) => Node::Integer(i),
        Opened::Float => Node::Float,
        Opened::Boolean(b) => Node::Boolean(b),
        Opened::Datetime => Node::Datetime,
        Opened::Array(items) => {
            let ghost trees = items@.map_values(|item: toml::Value| toml_content(item));
            let mut nodes: Vec<Node> = Vec::new();
            let mut i: usize = 0;
            while i < items.len()
                invariant
                    i <= items.len(),
                    nodes.len() == i,
                    toml_content(*value) == Tree::Array(trees),
                    trees == items@.map_values(|item: toml::Value| toml_content(item)),
                    forall|j: int| 0 <= j < i ==> (#[trigger] nodes[j])@ == trees[j],
                decreases items.len() - i,
            {
                assert(decreases_to!(toml_content(*value) => toml_content(*value)->Array_0));
                assert(decreases_to!(trees => trees[i as int]));
                nodes.push(lift(&items[i]));
                i += 1;
            }
            assert(trees_of(nodes@) =~= trees);
            Node::Array(nodes)
        },
        Opened::Table(entries) => {
            let ghost table = entries@.map_values(
                |entry: (&String, &toml::Value)| (entry.0@, toml_content(*entry.1)),
            );
            let mut copied: Vec<(String, Node)> = Vec::new();
            let mut i: usize = 0;
            while i < entries.len()
                invariant
                    i <= entries.len(),
                    copied.len() == i,
                    toml_content(*value) == Tree::Table(table),
                    table == entries@.map_values(
                        |entry: (&String, &toml::Value)| (entry.0@, toml_content(*entry.1)),
                    ),
                    forall|j: int|
                        0 <= j < i ==> ((#[trigger] copied[j]).0@, copied[j].1@) == table[j],
                decreases entries.len() - i,
            {
                assert(decreases_to!(toml_content(*value) => toml_content(*value)->Table_0));
                assert(decreases_to!(table[i as int] => table[i as int].1));
                let key = entries[i].0.clone();
                let node = lift(entries[i].1);
                copied.push((key, node));
                i += 1;
            }
            assert(table_of(copied@) =~= table);
            Node::Table(copied)
        },
    }
}

/// Reads TOML text into a tree.
pub fn parse_document(text: &str) -> (document: Result<Node, ConfigError>)
    ensures
        match document {
            Ok(node) => toml_document(text@) == Some(node@),
            Err(_) => toml_document(text@) is None,
        },
{
    match read_toml(text) {
        Ok(value) => Ok(lift(&value)),
        Err(_) => Err(ConfigError::BadConfig),
    }
}

/// The value of the first entry of `table` under `key`.
pub open spec fn lookup(table: Seq<(Seq<char>, Tree)>, key: Seq<char>) -> Option<Tree>
    decreases table.len(),
{
    if table.len() == 0 {
        None
    } else if table[0].0 == key {
        Some(table[0].1)
    } else {
        lookup(table.drop_first(), key)
    }
}

/// An entry put anywhere into a table changes no lookup of another key.
pub proof fn lookup_passes_over(
    table: Seq<(Seq<char>, Tree)>,
    at: int,
    entry: (Seq<char>, Tree),
    key: Seq<char>,
)
    requires
        0 <= at <= table.len(),
        entry.0 != key,
    ensures
        lookup(table.insert(at, entry), key) == lookup(table, key),
    decreases table.len(),
{
    let longer = table.insert(at, entry);
    if at == 0 {
        assert(longer.drop_first() =~= table);
    } else {
        assert(longer.drop_first() =~= table.drop_first().insert(at - 1, entry));
        lookup_passes_over(table.drop_first(), at - 1, entry, key);
    }
}

/// The value of the first entry of `entries` under `key`.
pub fn find<'a>(entries: &'a Vec<(String, Node)>, key: &str) -> (found: Option<&'a Node>)
    ensures
        match found {
            Some(node) => lookup(table_of(entries@), key@) == Some(node@),
            None => lookup(table_of(entries@), key@) is None,
        },
{
    let ghost table = table_of(entries@);
    assert(table.skip(0) =~= table);
    let mut i: usize = 0;
    while i < entries.len()
        invariant
            i <= entries.len(),
            table == table_of(entries@),
            lookup(table, key@) == lookup(table.skip(i as int), key@),
        decreases entries.len() - i,
    {
        let ghost rest = table.skip(i as int);
        assert(rest.drop_first() =~= table.skip(i + 1));
        if same_text(entries[i].0.as_str(), key) {
            return Some(&entries[i].1);
        }
        i += 1;
    }
    None
}

} // verus!

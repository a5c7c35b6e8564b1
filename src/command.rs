//! The backend commands, each a typed request that yields its ordered
//! argument list.
use crate::models::Payload;
use crate::text::{decimal, decimal_text};
use vstd::prelude::*;

verus! {

/// A command to the storage/search backend.
#[derive(Debug)]
pub enum Command {
    /// Probe whether an index exists.
    IndexInfo { index: String },
    /// Create an index over the hashes whose keys start with `prefix`.
    CreateIndex { index: String, prefix: String, dimension: usize },
    /// Drop an index together with the documents it covers.
    DropIndex { index: String },
    /// Write a record's vector bytes and the key of its metadata document.
    HashWrite { key: String, vector: Vec<u8>, metadata_ref: String },
    /// Read every field of a hash.
    HashReadAll { key: String },
    /// Delete a key.
    KeyDelete { key: String },
    /// Probe whether a key exists.
    KeyExists { key: String },
    /// Write a metadata document.
    DocWrite { key: String, doc: Payload },
    /// Read a metadata document.
    DocRead { key: String },
    /// Delete a metadata document.
    DocDelete { key: String },
    /// Count the documents of an index, returning none of them.
    CountDocuments { index: String },
    /// Nearest-neighbour search, ascending by score.
    KnnSearch { index: String, query: String, vector: Vec<u8>, include_vectors: bool, count: usize },
    /// Enumerate keys that match a pattern.
    ScanKeys { pattern: String, count: usize },
}

/// A command with its texts and bytes seen as sequences.
pub enum CommandView {
    IndexInfo { index: Seq<char> },
    CreateIndex { index: Seq<char>, prefix: Seq<char>, dimension: usize },
    DropIndex { index: Seq<char> },
    HashWrite { key: Seq<char>, vector: Seq<u8>, metadata_ref: Seq<char> },
    HashReadAll { key: Seq<char> },
    KeyDelete { key: Seq<char> },
    KeyExists { key: Seq<char> },
    DocWrite { key: Seq<char>, doc: Payload },
    DocRead { key: Seq<char> },
    DocDelete { key: Seq<char> },
    CountDocuments { index: Seq<char> },
    KnnSearch {
        index: Seq<char>,
        query: Seq<char>,
        vector: Seq<u8>,
        include_vectors: bool,
        count: usize,
    },
    ScanKeys { pattern: Seq<char>, count: usize },
}

impl View for Command {
    type V = CommandView;

    open spec fn view(&self) -> CommandView {
        match self {
            Command::IndexInfo { index } => CommandView::IndexInfo { index: index@ },
            Command::CreateIndex { index, prefix, dimension } => CommandView::CreateIndex {
                index: index@,
                prefix: prefix@,
                dimension: *dimension,
            },
            Command::DropIndex { index } => CommandView::DropIndex { index: index@ },
            Command::HashWrite { key, vector, metadata_ref } => CommandView::HashWrite {
                key: key@,
                vector: vector@,
                metadata_ref: metadata_ref@,
            },
            Command::HashReadAll { key } => CommandView::HashReadAll { key: key@ },
            Command::KeyDelete { key } => CommandView::KeyDelete { key: key@ },
            Command::KeyExists { key } => CommandView::KeyExists { key: key@ },
            Command::DocWrite { key, doc } => CommandView::DocWrite { key: key@, doc: *doc },
            Command::DocRead { key } => CommandView::DocRead { key: key@ },
            Command::DocDelete { key } => CommandView::DocDelete { key: key@ },
            Command::CountDocuments { index } => CommandView::CountDocuments { index: index@ },
            Command::KnnSearch { index, query, vector, include_vectors, count } =>
                CommandView::KnnSearch {
                index: index@,
                query: query@,
                vector: vector@,
                include_vectors: *include_vectors,
                count: *count,
            },
            Command::ScanKeys { pattern, count } => CommandView::ScanKeys {
                pattern: pattern@,
                count: *count,
            },
        }
    }
}

/// The views of a list of commands.
pub open spec fn commands_view(c: Seq<Command>) -> Seq<CommandView> {
    c.map_values(|x: Command| x@)
}

/// One argument of a command line.
#[derive(Debug)]
pub enum Arg {
    Text(String),
    Bytes(Vec<u8>),
    /// A metadata document, written as JSON on the wire.
    Doc(Payload),
}

pub enum ArgView {
    Text(Seq<char>),
    Bytes(Seq<u8>),
    Doc(Payload),
}

pub open spec fn arg_view(a: Arg) -> ArgView {
    match a {
        Arg::Text(s) => ArgView::Text(s@),
        Arg::Bytes(b) => ArgView::Bytes(b@),
        Arg::Doc(d) => ArgView::Doc(d),
    }
}

/// A text argument.
pub open spec fn word(s: Seq<char>) -> ArgView {
    ArgView::Text(s)
}

/// A number argument, in decimal.
pub open spec fn num(v: nat) -> ArgView {
    ArgView::Text(decimal(v))
}

/// The argument list of a command, its name first.
pub open spec fn command_args(c: CommandView) -> Seq<ArgView> {
    match c {
        CommandView::IndexInfo { index } => seq![word("FT.INFO"@), word(index)],
        CommandView::CreateIndex { index, prefix, dimension } => seq![
            word("FT.CREATE"@),
            word(index),
            word("ON"@),
            word("HASH"@),
            word("PREFIX"@),
            word("1"@),
            word(prefix),
            word("SCHEMA"@),
            word("id"@),
            word("TAG"@),
            word("vector"@),
            word("VECTOR"@),
            word("FLAT"@),
            word("6"@),
            word("TYPE"@),
            word("FLOAT64"@),
            word("DIM"@),
            num(dimension as nat),
            word("DISTANCE_METRIC"@),
            word("COSINE"@),
            word("metadata_json_id"@),
            word("TAG"@),
        ],
        CommandView::DropIndex { index } => seq![word("FT.DROPINDEX"@), word(index), word("DD"@)],
        CommandView::HashWrite { key, vector, metadata_ref } => seq![
            word("HSET"@),
            word(key),
            word("vector"@),
            ArgView::Bytes(vector),
            word("metadata_json_id"@),
            word(metadata_ref),
        ],
        CommandView::HashReadAll { key } => seq![word("HGETALL"@), word(key)],
        CommandView::KeyDelete { key } => seq![word("DEL"@), word(key)],
        CommandView::KeyExists { key } => seq![word("EXISTS"@), word(key)],
        CommandView::DocWrite { key, doc } => seq![
            word("JSON.SET"@),
            word(key),
            word("$"@),
            ArgView::Doc(doc),
        ],
        CommandView::DocRead { key } => seq![word("JSON.GET"@), word(key)],
        CommandView::DocDelete { key } => seq![word("JSON.DEL"@), word(key), word("$"@)],
        CommandView::CountDocuments { index } => seq![
            word("FT.SEARCH"@),
            word(index),
            word("*"@),
            word("LIMIT"@),
            word("0"@),
            word("0"@),
        ],
        CommandView::KnnSearch { index, query, vector, include_vectors, count } => {
            let head = seq![
                word("FT.SEARCH"@),
                word(index),
                word(query),
                word("PARAMS"@),
                word("2"@),
                word("vec"@),
                ArgView::Bytes(vector),
                word("RETURN"@),
            ];
            let fields = if include_vectors {
                seq![word("2"@), word("vector_score"@), word("vector"@)]
            } else {
                seq![word("1"@), word("vector_score"@)]
            };
            head + fields + seq![
                word("SORTBY"@),
                word("vector_score"@),
                word("LIMIT"@),
                word("0"@),
                num(count as nat),
                word("DIALECT"@),
                word("2"@),
            ]
        },
        CommandView::ScanKeys { pattern, count } => seq![
            word("SCAN"@),
            word("0"@),
            word("MATCH"@),
            word(pattern),
            word("COUNT"@),
            num(count as nat),
        ],
    }
}

fn text(s: &str) -> (r: Arg)
    ensures
        arg_view(r) == word(s@),
{
    Arg::Text(String::from_str(s))
}

fn number(v: usize) -> (r: Arg)
    ensures
        arg_view(r) == num(v as nat),
{
    Arg::Text(decimal_text(v as u64))
}

impl Command {
    /// The ordered argument list of the command, its name first.
    pub fn into_args(self) -> (r: Vec<Arg>)
        ensures
            r@.map_values(|a: Arg| arg_view(a)) == command_args(self@),
    {
        let ghost v = self@;
        let r = match self {
            Command::IndexInfo { index } => vec![text("FT.INFO"), Arg::Text(index)],
            Command::CreateIndex { index, prefix, dimension } => vec![
                text("FT.CREATE"),
                Arg::Text(index),
                text("ON"),
                text("HASH"),
                text("PREFIX"),
                text("1"),
                Arg::Text(prefix),
                text("SCHEMA"),
                text("id"),
                text("TAG"),
                text("vector"),
                text("VECTOR"),
                text("FLAT"),
                text("6"),
                text("TYPE"),
                text("FLOAT64"),
                text("DIM"),
                number(dimension),
                text("DISTANCE_METRIC"),
                text("COSINE"),
                text("metadata_json_id"),
                text("TAG"),
            ],
            Command::DropIndex { index } => vec![text("FT.DROPINDEX"), Arg::Text(index), text("DD")],
            Command::HashWrite { key, vector, metadata_ref } => vec![
                text("HSET"),
                Arg::Text(key),
                text("vector"),
                Arg::Bytes(vector),
                text("metadata_json_id"),
                Arg::Text(metadata_ref),
            ],
            Command::HashReadAll { key } => vec![text("HGETALL"), Arg::Text(key)],
            Command::KeyDelete { key } => vec![text("DEL"), Arg::Text(key)],
            Command::KeyExists { key } => vec![text("EXISTS"), Arg::Text(key)],
            Command::DocWrite { key, doc } => vec![
                text("JSON.SET"),
                Arg::Text(key),
                text("$"),
                Arg::Doc(doc),
            ],
            Command::DocRead { key } => vec![text("JSON.GET"), Arg::Text(key)],
            Command::DocDelete { key } => vec![text("JSON.DEL"), Arg::Text(key), text("$")],
            Command::CountDocuments { index } => vec![
                text("FT.SEARCH"),
                Arg::Text(index),
                text("*"),
                text("LIMIT"),
                text("0"),
                text("0"),
            ],
            Command::KnnSearch { index, query, vector, include_vectors, count } => {
                let mut a = vec![
                    text("FT.SEARCH"),
                    Arg::Text(index),
                    Arg::Text(query),
                    text("PARAMS"),
                    text("2"),
                    text("vec"),
                    Arg::Bytes(vector),
                    text("RETURN"),
                ];
                if include_vectors {
                    a.push(text("2"));
                    a.push(text("vector_score"));
                    a.push(text("vector"));
                } else {
                    a.push(text("1"));
                    a.push(text("vector_score"));
                }
                a.push(text("SORTBY"));
                a.push(text("vector_score"));
                a.push(text("LIMIT"));
                a.push(text("0"));
                a.push(number(count));
                a.push(text("DIALECT"));
                a.push(text("2"));
                a
            },
            Command::ScanKeys { pattern, count } => vec![
                text("SCAN"),
                text("0"),
                text("MATCH"),
                Arg::Text(pattern),
                text("COUNT"),
                number(count),
            ],
        };
        assert(r@.map_values(|a: Arg| arg_view(a)) =~= command_args(v));
        r
    }
}

} // verus!

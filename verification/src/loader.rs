//! The dictionary: categories and their words, and how they are read from the
//! text of a dictionary file.
//!
//! A dictionary file is a YAML document: a mapping whose entry `categories`
//! is a list of categories. A category is a mapping with a name under
//! `categorie` and a list of words under `mots`; a word is a mapping with the
//! texts `mot`, `description` and `lien`.

use vstd::prelude::*;
use vstd::string::StringExecFns;
use yaml_rust::scanner::ScanError;
use yaml_rust::{Yaml, YamlLoader};

verus! {

/// A node of a YAML document, as `yaml_rust` holds it.
#[verifier::external_type_specification]
#[verifier::external_body]
pub struct ExYaml(Yaml);

/// The error with which `yaml_rust` refuses a text.
#[verifier::external_type_specification]
#[verifier::external_body]
pub struct ExScanError(ScanError);

/// What a node of a YAML document holds.
pub enum Node {
    /// A number with a fraction, kept as it is written.
    Real(Seq<char>),
    /// A whole number.
    Integer(i64),
    /// A text.
    String(Seq<char>),
    /// A truth value.
    Boolean(bool),
    /// A list of nodes.
    Array(Seq<Node>),
    /// A mapping: its entries, key and value, in the order of the document;
    /// no key comes twice.
    Hash(Seq<(Node, Node)>),
    /// A reference to another node.
    Alias(usize),
    /// Nothing.
    Null,
    /// What the crate hands out where there is no node.
    BadValue,
}

/// What a node of `yaml_rust` holds.
pub uninterp spec fn yaml_value(node: Yaml) -> Node;

/// What the documents hold that `yaml_rust::YamlLoader::load_from_str` reads
/// from `source`, or nothing where it refuses the text.
pub uninterp spec fn yaml_documents(source: Seq<char>) -> Option<Seq<Node>>;

/// What each of some nodes of `yaml_rust` holds.
pub open spec fn yaml_values(nodes: Seq<Yaml>) -> Seq<Node> {
    Seq::new(nodes.len(), |i: int| yaml_value(nodes[i]))
}

/// The value of the first of `entries` whose key is the text `key`; a bad
/// value where there is none.
pub open spec fn value_under(entries: Seq<(Node, Node)>, key: Seq<char>) -> Node
    decreases entries.len(),
{
    if entries.len() == 0 {
        Node::BadValue
    } else if entries.first().0 == Node::String(key) {
        entries.first().1
    } else {
        value_under(entries.drop_first(), key)
    }
}

impl Node {
    /// The node that a mapping holds under the text `key`; a bad value for a
    /// mapping without such a key and for a node that is no mapping.
    pub open spec fn entry(self, key: Seq<char>) -> Node {
        match self {
            Node::Hash(entries) => value_under(entries, key),
            _ => Node::BadValue,
        }
    }

    /// The items of a node that is a list; nothing for any other node.
    pub open spec fn items(self) -> Option<Seq<Node>> {
        match self {
            Node::Array(items) => Some(items),
            _ => None,
        }
    }

    /// The text of a node that is a text; nothing for any other node.
    pub open spec fn text(self) -> Option<Seq<char>> {
        match self {
            Node::String(text) => Some(text),
            _ => None,
        }
    }
}

/// A named, ordered group of words.
#[derive(Clone, Debug)]
pub struct Categorie {
    pub name: String,
    pub words: Vec<Word>,
}

/// A vocabulary entry: its name, how it is signed, and where to see it.
#[derive(Clone, Debug)]
pub struct Word {
    pub name: String,
    pub description: String,
    pub link: String,
}

/// Mathematical model of a [`Word`].
pub struct WordView {
    pub name: Seq<char>,
    pub description: Seq<char>,
    pub link: Seq<char>,
}

/// Mathematical model of a [`Categorie`].
pub struct CategorieView {
    pub name: Seq<char>,
    pub words: Seq<WordView>,
}

impl View for Word {
    type V = WordView;

    open spec fn view(&self) -> WordView {
        WordView { name: self.name@, description: self.description@, link: self.link@ }
    }
}

impl View for Categorie {
    type V = CategorieView;

    open spec fn view(&self) -> CategorieView {
        CategorieView { name: self.name@, words: words_view(self.words@) }
    }
}

/// The models of a list of words.
pub open spec fn words_view(words: Seq<Word>) -> Seq<WordView> {
    Seq::new(words.len(), |i: int| words[i]@)
}

/// The models of a list of categories.
pub open spec fn dictionary_view(categories: Seq<Categorie>) -> Seq<CategorieView> {
    Seq::new(categories.len(), |i: int| categories[i]@)
}

/// Why a dictionary cannot be read from a text.
#[derive(Clone, Copy, Debug, PartialEq, Eq, Structural)]
pub enum LoadError {
    /// The text is no YAML.
    Syntax,
    /// The text holds no document.
    Empty,
    /// The document is no dictionary: an entry is missing, or is of another
    /// kind than a dictionary has there.
    Shape,
}

/// The word that a node describes, if it is a mapping with the texts `mot`,
/// `description` and `lien`.
pub open spec fn word_of(node: Node) -> Option<WordView> {
    match (node.entry("mot"@).text(), node.entry("description"@).text(), node.entry("lien"@).text()) {
        (Some(name), Some(description), Some(link)) => Some(
            WordView { name, description, link },
        ),
        _ => None,
    }
}

/// The words that a list of nodes describes, in the order of the list, if
/// each of its nodes describes a word.
pub open spec fn words_of(nodes: Seq<Node>) -> Option<Seq<WordView>> {
    if forall|i: int| 0 <= i < nodes.len() ==> word_of(#[trigger] nodes[i]) is Some {
        Some(Seq::new(nodes.len(), |i: int| word_of(nodes[i])->0))
    } else {
        None
    }
}

/// The category that a node describes, if it is a mapping with a text under
/// `categorie` and a list of words under `mots`.
pub open spec fn categorie_of(node: Node) -> Option<CategorieView> {
    match (node.entry("categorie"@).text(), node.entry("mots"@).items()) {
        (Some(name), Some(nodes)) => match words_of(nodes) {
            Some(words) => Some(CategorieView { name, words }),
            None => None,
        },
        _ => None,
    }
}

/// The categories that a list of nodes describes, in the order of the list,
/// if each of its nodes describes a category.
pub open spec fn categories_of(nodes: Seq<Node>) -> Option<Seq<CategorieView>> {
    if forall|i: int| 0 <= i < nodes.len() ==> categorie_of(#[trigger] nodes[i]) is Some {
        Some(Seq::new(nodes.len(), |i: int| categorie_of(nodes[i])->0))
    } else {
        None
    }
}

/// The dictionary that a document describes, if it is a mapping with a list
/// of categories under `categories`.
pub open spec fn dictionary_of(document: Node) -> Option<Seq<CategorieView>> {
    match document.entry("categories"@).items() {
        Some(nodes) => categories_of(nodes),
        None => None,
    }
}

/// What reading a dictionary from documents gives: the dictionary that the
/// first document describes. Later documents are not looked at.
pub open spec fn loaded(documents: Option<Seq<Node>>) -> Result<Seq<CategorieView>, LoadError> {
    match documents {
        None => Err(LoadError::Syntax),
        Some(documents) => if documents.len() == 0 {
            Err(LoadError::Empty)
        } else {
            match dictionary_of(documents[0]) {
                Some(categories) => Ok(categories),
                None => Err(LoadError::Shape),
            }
        },
    }
}

/// The outcome of reading a dictionary, with the dictionary taken as its
/// model.
pub open spec fn outcome_view(outcome: Result<Vec<Categorie>, LoadError>) -> Result<
    Seq<CategorieView>,
    LoadError,
> {
    match outcome {
        Ok(categories) => Ok(dictionary_view(categories@)),
        Err(error) => Err(error),
    }
}

/// `yaml_rust::YamlLoader::load_from_str`: the documents of `source`, or the
/// error with which the text is refused.
#[verifier::external_body]
fn load_from_str(source: &str) -> (res: Result<Vec<Yaml>, ScanError>)
    ensures
        res matches Ok(documents) ==> yaml_documents(source@) == Some(yaml_values(documents@)),
        res is Err ==> yaml_documents(source@) is None,
{
    YamlLoader::load_from_str(source)
}

/// Indexing a `yaml_rust::Yaml` by a `&str`: the node that a mapping holds
/// under the text `key`. For a node that is no mapping, and for a mapping
/// without such a key, the crate hands out its node for a bad value.
#[verifier::external_body]
fn entry<'a>(node: &'a Yaml, key: &str) -> (res: &'a Yaml)
    ensures
        yaml_value(*res) == yaml_value(*node).entry(key@),
{
    &node[key]
}

/// `yaml_rust::Yaml::as_vec`: the items of a node that is a list, and
/// nothing for any other node.
#[verifier::external_body]
fn as_vec(node: &Yaml) -> (res: Option<&Vec<Yaml>>)
    ensures
        res matches Some(items) ==> yaml_value(*node).items() == Some(yaml_values(items@)),
        res is None ==> yaml_value(*node).items() is None,
{
    node.as_vec()
}

/// `yaml_rust::Yaml::as_str`: the text of a node that is a text, and nothing
/// for any other node.
#[verifier::external_body]
fn as_str(node: &Yaml) -> (res: Option<&str>)
    ensures
        res matches Some(text) ==> yaml_value(*node).text() == Some(text@),
        res is None ==> yaml_value(*node).text() is None,
{
    node.as_str()
}

/// The text that a mapping holds under `key`.
fn text_under(node: &Yaml, key: &str) -> (res: Option<String>)
    ensures
        res is Some == yaml_value(*node).entry(key@).text() is Some,
        res matches Some(text) ==> yaml_value(*node).entry(key@).text() == Some(text@),
{
    match as_str(entry(node, key)) {
        Some(text) => Some(String::from_str(text)),
        None => None,
    }
}

/// The word that a node describes.
fn read_word(node: &Yaml) -> (res: Option<Word>)
    ensures
        res is Some == word_of(yaml_value(*node)) is Some,
        res matches Some(word) ==> word_of(yaml_value(*node)) == Some(word@),
{
    let name = text_under(node, "mot");
    let description = text_under(node, "description");
    let link = text_under(node, "lien");
    match (name, description, link) {
        (Some(name), Some(description), Some(link)) => Some(Word { name, description, link }),
        _ => None,
    }
}

/// The words that a list of nodes describes.
fn read_words(nodes: &Vec<Yaml>) -> (res: Option<Vec<Word>>)
    ensures
        res is Some == words_of(yaml_values(nodes@)) is Some,
        res matches Some(words) ==> words_of(yaml_values(nodes@)) == Some(words_view(words@)),
{
    let ghost values = yaml_values(nodes@);
    let mut words: Vec<Word> = Vec::new();
    let mut i: usize = 0;
    while i < nodes.len()
        invariant
            i <= nodes.len(),
            words.len() == i,
            values == yaml_values(nodes@),
            forall|k: int| 0 <= k < i ==> word_of(#[trigger] values[k]) == Some(words[k]@),
        decreases nodes.len() - i,
    {
        match read_word(&nodes[i]) {
            Some(word) => {
                words.push(word);
            },
            None => {
                proof {
                    assert(word_of(values[i as int]) is None);
                }
                return None;
            },
        }
        i += 1;
    }
    proof {
        assert(words_of(values)->0 =~= words_view(words@));
    }
    Some(words)
}

/// The category that a node describes.
fn read_categorie(node: &Yaml) -> (res: Option<Categorie>)
    ensures
        res is Some == categorie_of(yaml_value(*node)) is Some,
        res matches Some(categorie) ==> categorie_of(yaml_value(*node)) == Some(categorie@),
{
    let words = match as_vec(entry(node, "mots")) {
        Some(nodes) => match read_words(nodes) {
            Some(words) => words,
            None => {
                return None;
            },
        },
        None => {
            return None;
        },
    };
    match text_under(node, "categorie") {
        Some(name) => Some(Categorie { name, words }),
        None => None,
    }
}

/// Reads the dictionary that a document describes: its categories in the
/// order of the document, each with its words in their order, none left out.
/// Fails where the document is no dictionary.
pub fn read_dictionary(document: &Yaml) -> (res: Result<Vec<Categorie>, LoadError>)
    ensures
        outcome_view(res) == (match dictionary_of(yaml_value(*document)) {
            Some(categories) => Ok(categories),
            None => Err(LoadError::Shape),
        }),
{
    let nodes = match as_vec(entry(document, "categories")) {
        Some(nodes) => nodes,
        None => {
            return Err(LoadError::Shape);
        },
    };
    let ghost values = yaml_values(nodes@);
    let mut res: Vec<Categorie> = Vec::new();
    let mut i: usize = 0;
    while i < nodes.len()
        invariant
            i <= nodes.len(),
            res.len() == i,
            values == yaml_values(nodes@),
            dictionary_of(yaml_value(*document)) == categories_of(values),
            forall|k: int| 0 <= k < i ==> categorie_of(#[trigger] values[k]) == Some(res[k]@),
        decreases nodes.len() - i,
    {
        match read_categorie(&nodes[i]) {
            Some(categorie) => {
                res.push(categorie);
            },
            None => {
                proof {
                    assert(categorie_of(values[i as int]) is None);
                }
                return Err(LoadError::Shape);
            },
        }
        i += 1;
    }
    proof {
        assert(categories_of(values)->0 =~= dictionary_view(res@));
    }
    Ok(res)
}

/// Loads the entries of a dictionary file, given as its text, into a vector
/// of categories. Fails where the text is no YAML, holds no document, or
/// its first document is no dictionary.
pub fn load_file(contents: &str) -> (res: Result<Vec<Categorie>, LoadError>)
    ensures
        outcome_view(res) == loaded(yaml_documents(contents@)),
{
    let docs = match load_from_str(contents) {
        Ok(docs) => docs,
        Err(_) => {
            return Err(LoadError::Syntax);
        },
    };
    if docs.len() == 0 {
        return Err(LoadError::Empty);
    }
    read_dictionary(&docs[0])
}

/// The words of all categories, one category after the other.
pub open spec fn flattened(categories: Seq<Categorie>) -> Seq<Word>
    decreases categories.len(),
{
    if categories.len() == 0 {
        Seq::empty()
    } else {
        flattened(categories.drop_last()) + categories.last().words@
    }
}

impl Word {
    /// A copy of this word.
    pub fn duplicate(&self) -> (res: Word)
        ensures
            res == *self,
    {
        Word {
            name: self.name.clone(),
            description: self.description.clone(),
            link: self.link.clone(),
        }
    }
}

/// Copies the words of every category into one list, in the order of the
/// categories and, inside a category, in the order of its words.
pub fn all_words(categories: &Vec<Categorie>) -> (res: Vec<Word>)
    ensures
        res@ == flattened(categories@),
{
    let mut res: Vec<Word> = Vec::new();
    let mut c: usize = 0;
    while c < categories.len()
        invariant
            c <= categories.len(),
            res@ == flattened(categories@.take(c as int)),
        decreases categories.len() - c,
    {
        let words = &categories[c].words;
        let ghost before = res@;
        let mut w: usize = 0;
        while w < words.len()
            invariant
                w <= words.len(),
                res@ == before + words@.take(w as int),
            decreases words.len() - w,
        {
            res.push(words[w].duplicate());
            proof {
                assert(words@.take(w as int + 1) == words@.take(w as int).push(words@[w as int]));
            }
            w += 1;
        }
        proof {
            assert(words@.take(words.len() as int) == words@);
            assert(categories@.take(c as int + 1).drop_last() == categories@.take(c as int));
        }
        c += 1;
    }
    proof {
        assert(categories@.take(categories.len() as int) == categories@);
    }
    res
}

} // verus!

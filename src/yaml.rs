use vstd::prelude::*;
use yaml_rust::{EmitError, ScanError, Yaml, YamlEmitter, YamlLoader};

verus! {

#[verifier::external_type_specification]
#[verifier::external_body]
pub struct ExYaml(Yaml);

#[verifier::external_type_specification]
#[verifier::external_body]
pub struct ExScanError(ScanError);

#[verifier::external_type_specification]
#[verifier::external_body]
pub struct ExEmitError(EmitError);

/// The longest YAML text, in characters, that this library loads. The loader
/// and the emitter recurse once per level of nesting, so bounding the text
/// bounds the depth of their recursion, and with it their use of the stack.
pub const MAX_YAML_LEN: usize = 1024;

/// How many documents the YAML loader finds in a text, or `None` where the
/// text does not scan as YAML.
pub uninterp spec fn loaded_document_count(source: Seq<char>) -> Option<nat>;

/// The document-start marker line that every emitted document begins with.
pub open spec fn document_marker() -> Seq<char> {
    seq!['-', '-', '-', '\n']
}

/// Relies on `yaml_rust::YamlLoader::load_from_str`: it yields the documents of
/// the text or a scan error, and which of the two depends on the text alone.
#[verifier::external_body]
fn load_documents(source: &str) -> (r: Result<Vec<Yaml>, ScanError>)
    requires
        source@.len() <= MAX_YAML_LEN,
    ensures
        match r {
            Ok(docs) => loaded_document_count(source@) == Some(docs@.len()),
            Err(_) => loaded_document_count(source@) is None,
        },
{
    YamlLoader::load_from_str(source)
}

/// Relies on the `Display` impl of `yaml_rust::ScanError`, which writes the
/// scanner's message followed by " at line .. column ..", so it is never empty.
#[verifier::external_body]
fn scan_error_message(e: &ScanError) -> (r: String)
    ensures
        r@.len() > 0,
{
    e.to_string()
}

/// Relies on `yaml_rust::YamlEmitter::dump`, writing into a fresh `String`:
/// its first write is the line `---`, so an emitted document starts with it.
/// It fails only where a write into the `String` fails, which never happens
/// (its other error, `BadHashmapKey`, is never built).
#[verifier::external_body]
fn emit_document(doc: &Yaml) -> (r: Result<String, EmitError>)
    ensures
        r is Ok,
        r matches Ok(text) ==> document_marker().is_prefix_of(text@),
{
    let mut out = String::new();
    let dumped = YamlEmitter::new(&mut out).dump(doc);
    match dumped {
        Ok(()) => Ok(out),
        Err(e) => Err(e),
    }
}

/// Why a YAML text could not be written back out.
#[derive(Debug)]
pub enum YamlError {
    /// The text does not scan as YAML; the loader's message.
    Scan(String),
    /// The text scans but holds no document.
    NoDocument,
}

impl YamlError {
    /// The text reported for this error.
    pub open spec fn spec_message(&self) -> Seq<char> {
        match self {
            YamlError::Scan(message) => message@,
            YamlError::NoDocument => "the text holds no YAML document"@,
        }
    }

    /// The text reported for this error.
    pub fn message(&self) -> (r: String)
        ensures
            r@ == self.spec_message(),
    {
        match self {
            YamlError::Scan(message) => message.clone(),
            YamlError::NoDocument => String::from_str("the text holds no YAML document"),
        }
    }
}

/// Whether the loader finds at least one document in a text.
pub open spec fn has_document(source: Seq<char>) -> bool {
    loaded_document_count(source) matches Some(n) && n > 0
}

/// Loads the first YAML document of `source` and writes it back out in the
/// emitter's canonical layout.
pub fn reformat_yaml(source: &str) -> (r: Result<String, YamlError>)
    requires
        source@.len() <= MAX_YAML_LEN,
    ensures
        r is Ok <==> has_document(source@),
        r matches Err(YamlError::Scan(m)) <==> loaded_document_count(source@) is None,
        r matches Err(YamlError::Scan(m)) ==> m@.len() > 0,
        r matches Err(YamlError::NoDocument) <==> loaded_document_count(source@) == Some(0nat),
        r matches Ok(text) ==> document_marker().is_prefix_of(text@),
{
    let docs = match load_documents(source) {
        Ok(docs) => docs,
        Err(e) => return Err(YamlError::Scan(scan_error_message(&e))),
    };
    if docs.len() == 0 {
        return Err(YamlError::NoDocument);
    }
    let text = emit_document(&docs[0]).unwrap();
    Ok(text)
}

} // verus!

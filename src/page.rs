use vstd::prelude::*;
use crate::topic::{lemma_sample_fits, Topic, LEARN_MORE_PREFIX};
use crate::yaml::{document_marker, has_document, reformat_yaml, YamlError};

verus! {

/// The closing line of a topic's page: the documentation link.
pub open spec fn learn_more_line(t: Topic) -> Seq<char> {
    LEARN_MORE_PREFIX@ + t.spec_doc_url() + "\n"@
}

/// A topic's page around the given YAML text: the explanation on its own
/// line, the YAML text ended by a line break, a blank line, and the link line.
pub open spec fn spec_page(t: Topic, yaml: Seq<char>) -> Seq<char> {
    t.spec_description() + "\n"@ + yaml + "\n"@ + "\n"@ + learn_more_line(t)
}

/// Lays out a topic's page around the YAML text `yaml`.
pub fn compose_page(t: Topic, yaml: &str) -> (r: String)
    ensures
        r@ == spec_page(t, yaml@),
{
    let mut page = String::from_str(t.description());
    page.append("\n");
    page.append(yaml);
    page.append("\n");
    page.append("\n");
    page.append(LEARN_MORE_PREFIX);
    page.append(t.doc_url());
    page.append("\n");
    page
}

/// A topic's page, with its sample manifest loaded and written back out in
/// canonical YAML layout; or why the sample could not be loaded.
pub fn render_topic(t: Topic) -> (r: Result<String, YamlError>)
    ensures
        r is Ok <==> has_document(t.spec_sample()),
        r matches Ok(p) ==> exists|yaml: Seq<char>|
            document_marker().is_prefix_of(yaml) && p@ == spec_page(t, yaml),
{
    proof {
        lemma_sample_fits(t);
    }
    match reformat_yaml(t.sample()) {
        Ok(yaml) => {
            let page = compose_page(t, yaml.as_str());
            assert(document_marker().is_prefix_of(yaml@) && page@ == spec_page(t, yaml@));
            Ok(page)
        },
        Err(e) => Err(e),
    }
}

} // verus!

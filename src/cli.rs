use vstd::prelude::*;
use crate::page::{learn_more_line, render_topic, spec_page};
use crate::topic::{all_topics, lemma_name_selects_topic, topic_of_name, Topic, LEARN_MORE_PREFIX};
use crate::yaml::{document_marker, has_document, YamlError};

verus! {

/// The first line of the usage message, up to the list of topic names.
pub const USAGE_HEAD: &'static str = "usage: kube-topics <topic>\nwhere <topic> is one of: ";

/// The names of `ts`, separated by commas.
pub open spec fn joined_names(ts: Seq<Topic>) -> Seq<char>
    decreases ts.len(),
{
    if ts.len() == 0 {
        Seq::empty()
    } else if ts.len() == 1 {
        ts[0].spec_name()
    } else {
        joined_names(ts.drop_last()) + ", "@ + ts.last().spec_name()
    }
}

/// The usage message, which lists every topic name.
pub open spec fn usage_text() -> Seq<char> {
    USAGE_HEAD@ + joined_names(all_topics()) + "\n"@
}

/// The usage message, which lists every topic name.
pub fn usage() -> (r: String)
    ensures
        r@ == usage_text(),
{
    let topics = Topic::all();
    let mut text = String::from_str(USAGE_HEAD);
    let mut i: usize = 0;
    assert(topics@.take(0) =~= Seq::<Topic>::empty());
    assert(text@ =~= USAGE_HEAD@ + joined_names(topics@.take(0)));
    while i < topics.len()
        invariant
            i <= topics@.len(),
            topics@ == all_topics(),
            text@ == USAGE_HEAD@ + joined_names(topics@.take(i as int)),
        decreases topics@.len() - i,
    {
        let ghost before = text@;
        let t = topics[i];
        assert(topics@.take(i + 1).drop_last() =~= topics@.take(i as int));
        if i > 0 {
            text.append(", ");
        }
        text.append(t.name());
        if i == 0 {
            assert(before =~= USAGE_HEAD@);
        }
        assert(text@ =~= USAGE_HEAD@ + joined_names(topics@.take(i + 1)));
        i = i + 1;
    }
    assert(topics@.take(topics@.len() as int) =~= topics@);
    text.append("\n");
    text
}

/// What went wrong with an invocation.
#[derive(Debug)]
pub enum CliError {
    /// No topic was named.
    MissingArgument,
    /// The word given names no topic.
    UnknownTopic(String),
    /// The topic's sample manifest could not be loaded.
    Render(Topic, YamlError),
}

/// The message for an invocation that names no topic.
pub open spec fn missing_argument_message() -> Seq<char> {
    "missing topic argument\n"@ + usage_text()
}

/// The message for an invocation whose word names no topic.
pub open spec fn unknown_topic_message(word: Seq<char>) -> Seq<char> {
    "unknown topic: "@ + word + "\n"@ + usage_text()
}

/// The message for a topic whose sample manifest could not be loaded, with
/// the loader's own message.
pub open spec fn render_failure_message(t: Topic, reason: Seq<char>) -> Seq<char> {
    "the sample manifest of topic "@ + t.spec_name() + " does not load: "@ + reason + "\n"@
}

impl CliError {
    /// The text reported for this error.
    pub open spec fn spec_message(&self) -> Seq<char> {
        match self {
            CliError::MissingArgument => missing_argument_message(),
            CliError::UnknownTopic(word) => unknown_topic_message(word@),
            CliError::Render(t, e) => render_failure_message(*t, e.spec_message()),
        }
    }

    /// The text reported for this error.
    pub fn message(&self) -> (r: String)
        ensures
            r@ == self.spec_message(),
    {
        match self {
            CliError::MissingArgument => {
                let mut text = String::from_str("missing topic argument\n");
                let usage = usage();
                text.append(usage.as_str());
                text
            },
            CliError::UnknownTopic(word) => {
                let mut text = String::from_str("unknown topic: ");
                text.append(word.as_str());
                text.append("\n");
                let usage = usage();
                text.append(usage.as_str());
                text
            },
            CliError::Render(t, e) => {
                let mut text = String::from_str("the sample manifest of topic ");
                text.append(t.name());
                text.append(" does not load: ");
                let reason = e.message();
                text.append(reason.as_str());
                text.append("\n");
                text
            },
        }
    }

    /// The process exit status for this error.
    pub open spec fn spec_exit_code(&self) -> i32 {
        match self {
            CliError::MissingArgument => 2,
            CliError::UnknownTopic(_) => 2,
            CliError::Render(_, _) => 1,
        }
    }

    /// The process exit status for this error: 2 for a usage error, 1 where
    /// the topic's sample could not be loaded.
    pub fn exit_code(&self) -> (r: i32)
        ensures
            r == self.spec_exit_code(),
            r != 0,
    {
        match self {
            CliError::MissingArgument => 2,
            CliError::UnknownTopic(_) => 2,
            CliError::Render(_, _) => 1,
        }
    }
}

/// Picks the topic named by the first argument; further arguments are ignored.
pub fn select_topic(args: &Vec<String>) -> (r: Result<Topic, CliError>)
    ensures
        args@.len() == 0 <==> r matches Err(CliError::MissingArgument),
        args@.len() > 0 ==> match topic_of_name(args@[0]@) {
            Some(t) => r == Ok::<Topic, CliError>(t),
            None => r matches Err(CliError::UnknownTopic(word)) && word@ == args@[0]@,
        },
{
    if args.len() == 0 {
        return Err(CliError::MissingArgument);
    }
    match Topic::from_name(args[0].as_str()) {
        Some(t) => Ok(t),
        None => Err(CliError::UnknownTopic(args[0].clone())),
    }
}

/// What one invocation writes to standard output and standard error, and the
/// status it exits with.
pub struct Outcome {
    pub stdout: String,
    pub stderr: String,
    pub exit_code: i32,
}

/// Runs one invocation on the arguments that follow the program name.
pub fn run(args: &Vec<String>) -> (r: Outcome)
    ensures
        args@.len() == 0 ==> r.stdout@.len() == 0 && r.stderr@ == missing_argument_message()
            && r.exit_code == 2,
        args@.len() > 0 ==> match topic_of_name(args@[0]@) {
            None => r.stdout@.len() == 0 && r.stderr@ == unknown_topic_message(args@[0]@)
                && r.exit_code == 2,
            Some(t) => if has_document(t.spec_sample()) {
                r.exit_code == 0 && r.stderr@.len() == 0 && exists|yaml: Seq<char>|
                    document_marker().is_prefix_of(yaml) && r.stdout@ == spec_page(t, yaml)
            } else {
                r.exit_code == 1 && r.stdout@ == t.spec_description() + "\n"@ && exists|
                    e: YamlError,
                | r.stderr@ == render_failure_message(t, e.spec_message())
            },
        },
{
    match select_topic(args) {
        Err(e) => Outcome { stdout: String::new(), stderr: e.message(), exit_code: e.exit_code() },
        Ok(t) => match render_topic(t) {
            Ok(page) => Outcome { stdout: page, stderr: String::new(), exit_code: 0 },
            Err(y) => {
                let mut shown = String::from_str(t.description());
                shown.append("\n");
                let e = CliError::Render(t, y);
                Outcome { stdout: shown, stderr: e.message(), exit_code: e.exit_code() }
            },
        },
    }
}

/// Each topic's explanation is non-empty and holds no line break.
proof fn lemma_description_is_one_line(t: Topic)
    ensures
        t.spec_description().len() > 0,
        forall|i: int| 0 <= i < t.spec_description().len() ==> t.spec_description()[i] != '\n',
{
    match t {
        Topic::Pods => reveal_strlit(
            "A pod is the smallest execution unit in Kubernetes. A pod encapsulates one or more applications",
        ),
        Topic::Deployments => reveal_strlit(
            "A Kubernetes Deployment tells Kubernetes how to create or modify instances of the pods that hold a containerized application.",
        ),
        Topic::Services => reveal_strlit(
            "A service is a logical collection of pods in a Kubernetes cluster. We can define a K8s service as an abstract way to load balance across the pods and expose an application deployed on a set of pods",
        ),
        Topic::DaemonSets => reveal_strlit(
            "A daemonSet is used to ensure that some or all of our K8S nodes run a copy of a pod, which allows us to run a daemon on every node.",
        ),
        Topic::ReplicaSets => reveal_strlit(
            "A replicaret is a process that runs multiple instances of a pod and keeps the specified number of pods constant.",
        ),
        Topic::Ingress => reveal_strlit(
            "An ingress is an API object that describes the routing rules for traffic (typically HTTP or HTTPS) into an application running within a Kubernetes cluster",
        ),
        Topic::Volumes => reveal_strlit(
            "A volume is a directory containing data, which can be accessed by containers in a Kubernetes pod",
        ),
        Topic::Secrets => reveal_strlit(
            "A secret is an object for storing sensitive pieces of data such as usernames, passwords, tokens, and keys",
        ),
        Topic::ConfigMaps => reveal_strlit(
            "A Kubernetes ConfigMap is an API object that allows you to store data as key-value pairs. Kubernetes pods can use ConfigMaps as configuration files, environment variables or command-line arguments.",
        ),
    }
}

/// Invoking with a topic's name selects that topic, and a page shown for it
/// is: a non-empty explanation line, the emitted YAML text, a blank line, and
/// a last line that carries the topic's documentation link.
pub proof fn lemma_topic_invocation(t: Topic, args: Seq<String>, yaml: Seq<char>)
    requires
        args.len() > 0,
        args[0]@ == t.spec_name(),
    ensures
        topic_of_name(args[0]@) == Some(t),
        t.spec_description().len() > 0,
        forall|i: int| 0 <= i < t.spec_description().len() ==> t.spec_description()[i] != '\n',
        spec_page(t, yaml) == t.spec_description() + seq!['\n'] + yaml + seq!['\n', '\n']
            + learn_more_line(t),
        learn_more_line(t) == LEARN_MORE_PREFIX@ + t.spec_doc_url() + seq!['\n'],
{
    lemma_name_selects_topic(t);
    lemma_description_is_one_line(t);
    reveal_strlit("\n");
    assert(spec_page(t, yaml) =~= t.spec_description() + seq!['\n'] + yaml + seq!['\n', '\n']
        + learn_more_line(t));
    assert(learn_more_line(t) =~= LEARN_MORE_PREFIX@ + t.spec_doc_url() + seq!['\n']);
}

} // verus!

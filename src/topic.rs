use vstd::prelude::*;
use crate::yaml::MAX_YAML_LEN;

verus! {

/// One Kubernetes object kind that the reference can explain.
#[derive(Clone, Copy, Debug, PartialEq, Eq, Structural)]
pub enum Topic {
    Pods,
    Deployments,
    Services,
    DaemonSets,
    ReplicaSets,
    Ingress,
    Volumes,
    Secrets,
    ConfigMaps,
}

/// Every topic, in the order in which they are listed to the user.
pub open spec fn all_topics() -> Seq<Topic> {
    seq![
        Topic::Pods,
        Topic::Deployments,
        Topic::Services,
        Topic::DaemonSets,
        Topic::ReplicaSets,
        Topic::Ingress,
        Topic::Volumes,
        Topic::Secrets,
        Topic::ConfigMaps,
    ]
}

impl Topic {
    /// The command-line word that selects this topic.
    pub open spec fn spec_name(self) -> Seq<char> {
        match self {
            Topic::Pods => "pods"@,
            Topic::Deployments => "deployments"@,
            Topic::Services => "services"@,
            Topic::DaemonSets => "daemonsets"@,
            Topic::ReplicaSets => "replicasets"@,
            Topic::Ingress => "ingress"@,
            Topic::Volumes => "volumes"@,
            Topic::Secrets => "secrets"@,
            Topic::ConfigMaps => "configmaps"@,
        }
    }
}

/// Text of the line that introduces a topic's documentation link.
pub const LEARN_MORE_PREFIX: &'static str = "To learn more, please visit here: ";

pub const PODS_DESCRIPTION: &'static str = "A pod is the smallest execution unit in Kubernetes. A pod encapsulates one or more applications";

pub const PODS_SAMPLE: &'static str = "
apiVersion: v1
kind: Pod
metadata:
    name: nginx
spec:
    containers:
    - name: nginx
      image: nginx:1.14.2
      ports:
      - containerPort: 80";

pub const PODS_DOC_URL: &'static str = "https://kubernetes.io/docs/concepts/workloads/pods/";

pub const DEPLOYMENTS_DESCRIPTION: &'static str = "A Kubernetes Deployment tells Kubernetes how to create or modify instances of the pods that hold a containerized application.";

pub const DEPLOYMENTS_SAMPLE: &'static str = "
apiVersion: apps/v1
kind: Deployment
metadata:
    name: nginx-deployment
    labels:
        app: nginx
spec:
    replicas: 3
    selector:
        matchLabels:
            app: nginx
    template:
        metadata:
            labels:
                app: nginx
        spec:
            containers:
            - name: nginx
              image: nginx:1.14.2
              ports:
              - containerPort: 80";

pub const DEPLOYMENTS_DOC_URL: &'static str = "https://kubernetes.io/docs/concepts/workloads/controllers/deployment/";

pub const SERVICES_DESCRIPTION: &'static str = "A service is a logical collection of pods in a Kubernetes cluster. We can define a K8s service as an abstract way to load balance across the pods and expose an application deployed on a set of pods";

pub const SERVICES_SAMPLE: &'static str = "
apiVersion: v1
kind: Service
metadata:
    name: my-service
spec:
    selector:
        app.kubernetes.io/name: MyApp
    ports:
    - protocol: TCP
      port: 80
      targetPort: 9376
";

pub const SERVICES_DOC_URL: &'static str = "https://kubernetes.io/docs/concepts/services-networking/service/";

pub const DAEMONSETS_DESCRIPTION: &'static str = "A daemonSet is used to ensure that some or all of our K8S nodes run a copy of a pod, which allows us to run a daemon on every node.";

pub const DAEMONSETS_SAMPLE: &'static str = "
apiVersion: apps/v1
kind: DaemonSet
metadata:
    name: fluentd-elasticsearch
    namespace: kube-system
    labels:
        k8s-app: fluentd-logging
spec:
    tolerations:
    - key: node-role.kubernetes.io/control-plane
      operator: Exists
      effect: NoSchedule
    - key: node-role.kubernetes.io/master
      operator: Exists
      effect: NoSchedule
    containers:
    - name: fluentd-elasticsearch
      image: quay.io/fluentd_elasticsearch/fluentd:v2.5.2
      resources:
        limits:
            memory: 200Mi
        requests:
            cpu: 100m
            memory: 200Mi
      volumeMounts:
      - name: varlog
        mountPath: /var/log
      - name: varlibdockercontainers
        mountPath: /var/lib/docker/containers
        readOnly: true
    terminationGracePeriodSeconds: 30
    volumes:
    - name: varlog
      hostPath:
        path: /var/log
    - name: varlibdockercontainers
      hostPath:
        path: /var/lib/docker/containers
";

pub const DAEMONSETS_DOC_URL: &'static str = "https://kubernetes.io/docs/concepts/workloads/controllers/daemonset/";

pub const REPLICASETS_DESCRIPTION: &'static str = "A replicaret is a process that runs multiple instances of a pod and keeps the specified number of pods constant.";

pub const REPLICASETS_SAMPLE: &'static str = "
apiVersion: apps/v1
kind: ReplicaSet
metadata:
    name: frontend
    labels:
        app: guestbook
        tier: frontend
spec:
    replicas: 3
    selector:
        matchLabels:
            tier: frontend
    template:
        metadata:
            labels:
                tier: frontend
        spec:
            containers:
            - name: php-redis
              image: gcr.io/google_samples/gb-frontend:v3
";

pub const REPLICASETS_DOC_URL: &'static str = "https://kubernetes.io/docs/concepts/workloads/controllers/replicaset/";

pub const INGRESS_DESCRIPTION: &'static str = "An ingress is an API object that describes the routing rules for traffic (typically HTTP or HTTPS) into an application running within a Kubernetes cluster";

pub const INGRESS_SAMPLE: &'static str = "
apiVersion: networking.k8s.io/v1
kind: Ingress
metadata:
    name: minimal-ingress
annotations:
    nginx.ingress.kubernetes.io/rewrite-target: /
spec:
    ingressClassName: nginx-example
    rules:
    - http:
        paths:
        - path: /testpath
          pathType: Prefix
          backend:
            service:
                name: test
                port:
                    number: 80
";

pub const INGRESS_DOC_URL: &'static str = "https://kubernetes.io/docs/concepts/services-networking/ingress/";

pub const VOLUMES_DESCRIPTION: &'static str = "A volume is a directory containing data, which can be accessed by containers in a Kubernetes pod";

pub const VOLUMES_SAMPLE: &'static str = "
apiVersion: v1
kind: Pods
metadata:
    name: test-ebs
spec:
    containers:
    - image: registry.k8s.io/test-webserver
      name: test-container
      volumeMounts:
      - mountPath: /test-ebs
        name: test-volume
    volumes:
    - name: test-volume
      # This EBS volume must already exist.
      awsElasticBlockStore:
        volumeID: '<volumeid>'
        fsType: ext4
";

pub const VOLUMES_DOC_URL: &'static str = "https://kubernetes.io/docs/concepts/storage/volumes/";

pub const SECRETS_DESCRIPTION: &'static str = "A secret is an object for storing sensitive pieces of data such as usernames, passwords, tokens, and keys";

pub const SECRETS_SAMPLE: &'static str = "
apiVersion: v1
data:
    username: YWRtaW4=
    password: MWYyZDFlMmU2N2Rm
kind: Secret
metadata:
    annotations:
        kubectl.kubernetes.io/last-applied-configuration: { ... }
    creationTimestamp: 2020-01-22T18:41:56Z
    name: mysecret
    namespace: default
    resourceVersion: '164619'
    uid: cfee02d6-c137-11e5-8d73-42010af00002
type: Opaque
";

pub const SECRETS_DOC_URL: &'static str = "https://kubernetes.io/docs/concepts/configuration/secret/";

pub const CONFIGMAPS_DESCRIPTION: &'static str = "A Kubernetes ConfigMap is an API object that allows you to store data as key-value pairs. Kubernetes pods can use ConfigMaps as configuration files, environment variables or command-line arguments.";

pub const CONFIGMAPS_SAMPLE: &'static str = "
apiVersion: v1
kind: ConfigMap
metadata:
    name: game-demo
data:
    # property-like keys; each key maps to a simple value
    player_initial_lives: '3'
    ui_properties_file_name: 'user-interface.properties'

    # file-like keys
    game.properties: |
        enemy.types=aliens,monsters
        player.maximum-lives=5    
    user-interface.properties: |
        color.good=purple
        color.bad=yellow
        allow.textmode=true
";

pub const CONFIGMAPS_DOC_URL: &'static str = "https://kubernetes.io/docs/concepts/configuration/configmap/";

impl Topic {
    /// A one- or two-sentence explanation of the object kind.
    pub open spec fn spec_description(self) -> Seq<char> {
        match self {
            Topic::Pods => PODS_DESCRIPTION@,
            Topic::Deployments => DEPLOYMENTS_DESCRIPTION@,
            Topic::Services => SERVICES_DESCRIPTION@,
            Topic::DaemonSets => DAEMONSETS_DESCRIPTION@,
            Topic::ReplicaSets => REPLICASETS_DESCRIPTION@,
            Topic::Ingress => INGRESS_DESCRIPTION@,
            Topic::Volumes => VOLUMES_DESCRIPTION@,
            Topic::Secrets => SECRETS_DESCRIPTION@,
            Topic::ConfigMaps => CONFIGMAPS_DESCRIPTION@,
        }
    }

    /// A sample manifest of the object kind, as YAML text.
    pub open spec fn spec_sample(self) -> Seq<char> {
        match self {
            Topic::Pods => PODS_SAMPLE@,
            Topic::Deployments => DEPLOYMENTS_SAMPLE@,
            Topic::Services => SERVICES_SAMPLE@,
            Topic::DaemonSets => DAEMONSETS_SAMPLE@,
            Topic::ReplicaSets => REPLICASETS_SAMPLE@,
            Topic::Ingress => INGRESS_SAMPLE@,
            Topic::Volumes => VOLUMES_SAMPLE@,
            Topic::Secrets => SECRETS_SAMPLE@,
            Topic::ConfigMaps => CONFIGMAPS_SAMPLE@,
        }
    }

    /// The page of the Kubernetes documentation on the object kind.
    pub open spec fn spec_doc_url(self) -> Seq<char> {
        match self {
            Topic::Pods => PODS_DOC_URL@,
            Topic::Deployments => DEPLOYMENTS_DOC_URL@,
            Topic::Services => SERVICES_DOC_URL@,
            Topic::DaemonSets => DAEMONSETS_DOC_URL@,
            Topic::ReplicaSets => REPLICASETS_DOC_URL@,
            Topic::Ingress => INGRESS_DOC_URL@,
            Topic::Volumes => VOLUMES_DOC_URL@,
            Topic::Secrets => SECRETS_DOC_URL@,
            Topic::ConfigMaps => CONFIGMAPS_DOC_URL@,
        }
    }

    /// A one- or two-sentence explanation of the object kind.
    pub fn description(&self) -> (r: &'static str)
        ensures
            r@ == self.spec_description(),
    {
        match self {
            Topic::Pods => PODS_DESCRIPTION,
            Topic::Deployments => DEPLOYMENTS_DESCRIPTION,
            Topic::Services => SERVICES_DESCRIPTION,
            Topic::DaemonSets => DAEMONSETS_DESCRIPTION,
            Topic::ReplicaSets => REPLICASETS_DESCRIPTION,
            Topic::Ingress => INGRESS_DESCRIPTION,
            Topic::Volumes => VOLUMES_DESCRIPTION,
            Topic::Secrets => SECRETS_DESCRIPTION,
            Topic::ConfigMaps => CONFIGMAPS_DESCRIPTION,
        }
    }

    /// A sample manifest of the object kind, as YAML text.
    pub fn sample(&self) -> (r: &'static str)
        ensures
            r@ == self.spec_sample(),
    {
        match self {
            Topic::Pods => PODS_SAMPLE,
            Topic::Deployments => DEPLOYMENTS_SAMPLE,
            Topic::Services => SERVICES_SAMPLE,
            Topic::DaemonSets => DAEMONSETS_SAMPLE,
            Topic::ReplicaSets => REPLICASETS_SAMPLE,
            Topic::Ingress => INGRESS_SAMPLE,
            Topic::Volumes => VOLUMES_SAMPLE,
            Topic::Secrets => SECRETS_SAMPLE,
            Topic::ConfigMaps => CONFIGMAPS_SAMPLE,
        }
    }

    /// The page of the Kubernetes documentation on the object kind.
    pub fn doc_url(&self) -> (r: &'static str)
        ensures
            r@ == self.spec_doc_url(),
    {
        match self {
            Topic::Pods => PODS_DOC_URL,
            Topic::Deployments => DEPLOYMENTS_DOC_URL,
            Topic::Services => SERVICES_DOC_URL,
            Topic::DaemonSets => DAEMONSETS_DOC_URL,
            Topic::ReplicaSets => REPLICASETS_DOC_URL,
            Topic::Ingress => INGRESS_DOC_URL,
            Topic::Volumes => VOLUMES_DOC_URL,
            Topic::Secrets => SECRETS_DOC_URL,
            Topic::ConfigMaps => CONFIGMAPS_DOC_URL,
        }
    }
}

/// Every sample manifest is short enough for the YAML loader.
pub proof fn lemma_sample_fits(t: Topic)
    ensures
        t.spec_sample().len() <= MAX_YAML_LEN,
{
    match t {
        Topic::Pods => reveal_strlit(
            "
apiVersion: v1
kind: Pod
metadata:
    name: nginx
spec:
    containers:
    - name: nginx
      image: nginx:1.14.2
      ports:
      - containerPort: 80",
        ),
        Topic::Deployments => reveal_strlit(
            "
apiVersion: apps/v1
kind: Deployment
metadata:
    name: nginx-deployment
    labels:
        app: nginx
spec:
    replicas: 3
    selector:
        matchLabels:
            app: nginx
    template:
        metadata:
            labels:
                app: nginx
        spec:
            containers:
            - name: nginx
              image: nginx:1.14.2
              ports:
              - containerPort: 80",
        ),
        Topic::Services => reveal_strlit(
            "
apiVersion: v1
kind: Service
metadata:
    name: my-service
spec:
    selector:
        app.kubernetes.io/name: MyApp
    ports:
    - protocol: TCP
      port: 80
      targetPort: 9376
",
        ),
        Topic::DaemonSets => reveal_strlit(
            "
apiVersion: apps/v1
kind: DaemonSet
metadata:
    name: fluentd-elasticsearch
    namespace: kube-system
    labels:
        k8s-app: fluentd-logging
spec:
    tolerations:
    - key: node-role.kubernetes.io/control-plane
      operator: Exists
      effect: NoSchedule
    - key: node-role.kubernetes.io/master
      operator: Exists
      effect: NoSchedule
    containers:
    - name: fluentd-elasticsearch
      image: quay.io/fluentd_elasticsearch/fluentd:v2.5.2
      resources:
        limits:
            memory: 200Mi
        requests:
            cpu: 100m
            memory: 200Mi
      volumeMounts:
      - name: varlog
        mountPath: /var/log
      - name: varlibdockercontainers
        mountPath: /var/lib/docker/containers
        readOnly: true
    terminationGracePeriodSeconds: 30
    volumes:
    - name: varlog
      hostPath:
        path: /var/log
    - name: varlibdockercontainers
      hostPath:
        path: /var/lib/docker/containers
",
        ),
        Topic::ReplicaSets => reveal_strlit(
            "
apiVersion: apps/v1
kind: ReplicaSet
metadata:
    name: frontend
    labels:
        app: guestbook
        tier: frontend
spec:
    replicas: 3
    selector:
        matchLabels:
            tier: frontend
    template:
        metadata:
            labels:
                tier: frontend
        spec:
            containers:
            - name: php-redis
              image: gcr.io/google_samples/gb-frontend:v3
",
        ),
        Topic::Ingress => reveal_strlit(
            "
apiVersion: networking.k8s.io/v1
kind: Ingress
metadata:
    name: minimal-ingress
annotations:
    nginx.ingress.kubernetes.io/rewrite-target: /
spec:
    ingressClassName: nginx-example
    rules:
    - http:
        paths:
        - path: /testpath
          pathType: Prefix
          backend:
            service:
                name: test
                port:
                    number: 80
",
        ),
        Topic::Volumes => reveal_strlit(
            "
apiVersion: v1
kind: Pods
metadata:
    name: test-ebs
spec:
    containers:
    - image: registry.k8s.io/test-webserver
      name: test-container
      volumeMounts:
      - mountPath: /test-ebs
        name: test-volume
    volumes:
    - name: test-volume
      # This EBS volume must already exist.
      awsElasticBlockStore:
        volumeID: '<volumeid>'
        fsType: ext4
",
        ),
        Topic::Secrets => reveal_strlit(
            "
apiVersion: v1
data:
    username: YWRtaW4=
    password: MWYyZDFlMmU2N2Rm
kind: Secret
metadata:
    annotations:
        kubectl.kubernetes.io/last-applied-configuration: { ... }
    creationTimestamp: 2020-01-22T18:41:56Z
    name: mysecret
    namespace: default
    resourceVersion: '164619'
    uid: cfee02d6-c137-11e5-8d73-42010af00002
type: Opaque
",
        ),
        Topic::ConfigMaps => reveal_strlit(
            "
apiVersion: v1
kind: ConfigMap
metadata:
    name: game-demo
data:
    # property-like keys; each key maps to a simple value
    player_initial_lives: '3'
    ui_properties_file_name: 'user-interface.properties'

    # file-like keys
    game.properties: |
        enemy.types=aliens,monsters
        player.maximum-lives=5    
    user-interface.properties: |
        color.good=purple
        color.bad=yellow
        allow.textmode=true
",
        ),
    }
}

/// The topic that a command-line word selects: exact, case-sensitive equality
/// with one of the topic names.
pub open spec fn topic_of_name(name: Seq<char>) -> Option<Topic> {
    if name == "pods"@ {
        Some(Topic::Pods)
    } else if name == "deployments"@ {
        Some(Topic::Deployments)
    } else if name == "services"@ {
        Some(Topic::Services)
    } else if name == "daemonsets"@ {
        Some(Topic::DaemonSets)
    } else if name == "replicasets"@ {
        Some(Topic::ReplicaSets)
    } else if name == "ingress"@ {
        Some(Topic::Ingress)
    } else if name == "volumes"@ {
        Some(Topic::Volumes)
    } else if name == "secrets"@ {
        Some(Topic::Secrets)
    } else if name == "configmaps"@ {
        Some(Topic::ConfigMaps)
    } else {
        None
    }
}

/// Whether two strings hold the same characters.
fn same_text(a: &str, b: &str) -> (r: bool)
    ensures
        r == (a@ == b@),
{
    String::from_str(a) == String::from_str(b)
}

impl Topic {
    /// The command-line word that selects this topic.
    pub fn name(&self) -> (r: &'static str)
        ensures
            r@ == self.spec_name(),
    {
        match self {
            Topic::Pods => "pods",
            Topic::Deployments => "deployments",
            Topic::Services => "services",
            Topic::DaemonSets => "daemonsets",
            Topic::ReplicaSets => "replicasets",
            Topic::Ingress => "ingress",
            Topic::Volumes => "volumes",
            Topic::Secrets => "secrets",
            Topic::ConfigMaps => "configmaps",
        }
    }

    /// The topic that `name` selects, if any.
    pub fn from_name(name: &str) -> (r: Option<Topic>)
        ensures
            r == topic_of_name(name@),
    {
        if same_text(name, "pods") {
            Some(Topic::Pods)
        } else if same_text(name, "deployments") {
            Some(Topic::Deployments)
        } else if same_text(name, "services") {
            Some(Topic::Services)
        } else if same_text(name, "daemonsets") {
            Some(Topic::DaemonSets)
        } else if same_text(name, "replicasets") {
            Some(Topic::ReplicaSets)
        } else if same_text(name, "ingress") {
            Some(Topic::Ingress)
        } else if same_text(name, "volumes") {
            Some(Topic::Volumes)
        } else if same_text(name, "secrets") {
            Some(Topic::Secrets)
        } else if same_text(name, "configmaps") {
            Some(Topic::ConfigMaps)
        } else {
            None
        }
    }

    /// Every topic, in listing order.
    pub fn all() -> (r: Vec<Topic>)
        ensures
            r@ == all_topics(),
    {
        let r = vec![
            Topic::Pods,
            Topic::Deployments,
            Topic::Services,
            Topic::DaemonSets,
            Topic::ReplicaSets,
            Topic::Ingress,
            Topic::Volumes,
            Topic::Secrets,
            Topic::ConfigMaps,
        ];
        assert(r@ =~= all_topics());
        r
    }
}

/// Two character sequences differ where their lengths or first characters differ.
proof fn lemma_texts_differ(a: Seq<char>, b: Seq<char>)
    requires
        a.len() != b.len() || (a.len() > 0 && b.len() > 0 && a[0] != b[0]),
    ensures
        a != b,
{
}

/// The length and first character of each topic name, which together tell
/// the names apart.
proof fn lemma_name_shape(t: Topic)
    ensures
        t.spec_name().len() > 0,
        match t {
            Topic::Pods => t.spec_name().len() == 4 && t.spec_name()[0] == 'p',
            Topic::Deployments => t.spec_name().len() == 11 && t.spec_name()[0] == 'd',
            Topic::Services => t.spec_name().len() == 8 && t.spec_name()[0] == 's',
            Topic::DaemonSets => t.spec_name().len() == 10 && t.spec_name()[0] == 'd',
            Topic::ReplicaSets => t.spec_name().len() == 11 && t.spec_name()[0] == 'r',
            Topic::Ingress => t.spec_name().len() == 7 && t.spec_name()[0] == 'i',
            Topic::Volumes => t.spec_name().len() == 7 && t.spec_name()[0] == 'v',
            Topic::Secrets => t.spec_name().len() == 7 && t.spec_name()[0] == 's',
            Topic::ConfigMaps => t.spec_name().len() == 10 && t.spec_name()[0] == 'c',
        },
{
    match t {
        Topic::Pods => reveal_strlit("pods"),
        Topic::Deployments => reveal_strlit("deployments"),
        Topic::Services => reveal_strlit("services"),
        Topic::DaemonSets => reveal_strlit("daemonsets"),
        Topic::ReplicaSets => reveal_strlit("replicasets"),
        Topic::Ingress => reveal_strlit("ingress"),
        Topic::Volumes => reveal_strlit("volumes"),
        Topic::Secrets => reveal_strlit("secrets"),
        Topic::ConfigMaps => reveal_strlit("configmaps"),
    }
}

/// The topic names are pairwise distinct.
proof fn lemma_names_distinct(t: Topic, u: Topic)
    requires
        t != u,
    ensures
        t.spec_name() != u.spec_name(),
{
    lemma_name_shape(t);
    lemma_name_shape(u);
    lemma_texts_differ(t.spec_name(), u.spec_name());
}

/// Each topic's name selects that topic and no other.
pub proof fn lemma_name_selects_topic(t: Topic)
    ensures
        topic_of_name(t.spec_name()) == Some(t),
{
    assert forall|u: Topic| u != t implies u.spec_name() != t.spec_name() by {
        lemma_names_distinct(u, t);
    }
    assert(Topic::Pods.spec_name() == "pods"@);
    assert(Topic::Deployments.spec_name() == "deployments"@);
    assert(Topic::Services.spec_name() == "services"@);
    assert(Topic::DaemonSets.spec_name() == "daemonsets"@);
    assert(Topic::ReplicaSets.spec_name() == "replicasets"@);
    assert(Topic::Ingress.spec_name() == "ingress"@);
    assert(Topic::Volumes.spec_name() == "volumes"@);
    assert(Topic::Secrets.spec_name() == "secrets"@);
}

/// A word selects a topic exactly when it is the name of that topic.
pub proof fn lemma_selected_topic_has_name(name: Seq<char>)
    ensures
        topic_of_name(name) matches Some(t) ==> t.spec_name() == name,
        topic_of_name(name) is None <==> (forall|t: Topic| t.spec_name() != name),
{
    if topic_of_name(name) is None {
        assert forall|t: Topic| t.spec_name() != name by {
            lemma_name_selects_topic(t);
        }
    } else {
        let t = topic_of_name(name)->Some_0;
        assert(t.spec_name() == name);
    }
}

} // verus!

use vstd::prelude::*;
use vstd::string::*;

verus! {

/// The four call shapes that the streaming flags of a method select.
#[derive(Clone, Copy, Debug, PartialEq, Eq, Structural)]
pub enum CallShape {
    Unary,
    ServerStreaming,
    ClientStreaming,
    Bidirectional,
}

/// The call shape for a pair of streaming flags.
pub open spec fn shape_of(client_streaming: bool, server_streaming: bool) -> CallShape {
    if !client_streaming && !server_streaming {
        CallShape::Unary
    } else if !client_streaming {
        CallShape::ServerStreaming
    } else if !server_streaming {
        CallShape::ClientStreaming
    } else {
        CallShape::Bidirectional
    }
}

/// Selects the call shape from the streaming flags of a method.
pub fn call_shape(client_streaming: bool, server_streaming: bool) -> (r: CallShape)
    ensures
        r == shape_of(client_streaming, server_streaming),
{
    match (client_streaming, server_streaming) {
        (false, false) => CallShape::Unary,
        (false, true) => CallShape::ServerStreaming,
        (true, false) => CallShape::ClientStreaming,
        (true, true) => CallShape::Bidirectional,
    }
}

/// A reference to a type inside the namespace `context`.
pub open spec fn type_ref(context: Seq<char>, name: Seq<char>) -> Seq<char> {
    context + "::"@ + name
}

/// What the generator reads of a method.
pub trait Method {
    /// Name of the method.
    fn name(&self) -> String;

    /// Identifier used in the method's route.
    fn identifier(&self) -> String;

    /// Whether the client streams its requests.
    fn client_streaming(&self) -> bool;

    /// Whether the server streams its responses.
    fn server_streaming(&self) -> bool;

    /// Comment lines about the method.
    fn comment(&self) -> Vec<String>;

    /// Path of the codec type that the handler instantiates.
    fn codec_path(&self) -> String;

    /// References to the request and response types inside `proto_path`.
    fn request_response_name(&self, proto_path: &str) -> (String, String);
}

/// What the generator reads of a service.
pub trait Service {
    /// The method type of the service.
    type Method: Method;

    /// Name of the service.
    fn name(&self) -> String;

    /// Package of the service.
    fn package(&self) -> String;

    /// Identifier used in the routes of its methods.
    fn identifier(&self) -> String;

    /// Methods provided by the service, in declared order.
    fn methods(&self) -> &Vec<Self::Method>;

    /// Comment lines about the service.
    fn comment(&self) -> Vec<String>;
}

/// A method description held as plain values.
pub struct MethodDescription {
    pub name: String,
    pub identifier: String,
    pub client_streaming: bool,
    pub server_streaming: bool,
    pub comment: Vec<String>,
    pub codec_path: String,
    pub request_type: String,
    pub response_type: String,
}

/// The mathematical view of a method description.
pub ghost struct MethodModel {
    pub name: Seq<char>,
    pub identifier: Seq<char>,
    pub client_streaming: bool,
    pub server_streaming: bool,
    pub comment: Seq<Seq<char>>,
    pub codec_path: Seq<char>,
    pub request_type: Seq<char>,
    pub response_type: Seq<char>,
}

/// The text of each string, in order.
pub open spec fn texts(v: Seq<String>) -> Seq<Seq<char>> {
    v.map_values(|l: String| l@)
}

impl View for MethodDescription {
    type V = MethodModel;

    open spec fn view(&self) -> MethodModel {
        MethodModel {
            name: self.name@,
            identifier: self.identifier@,
            client_streaming: self.client_streaming,
            server_streaming: self.server_streaming,
            comment: texts(self.comment@),
            codec_path: self.codec_path@,
            request_type: self.request_type@,
            response_type: self.response_type@,
        }
    }
}

/// A service description held as plain values.
pub struct ServiceDescription {
    pub name: String,
    pub package: String,
    pub identifier: String,
    pub methods: Vec<MethodDescription>,
    pub comment: Vec<String>,
}

/// The mathematical view of a service description.
pub ghost struct ServiceModel {
    pub name: Seq<char>,
    pub package: Seq<char>,
    pub identifier: Seq<char>,
    pub methods: Seq<MethodModel>,
    pub comment: Seq<Seq<char>>,
}

impl View for ServiceDescription {
    type V = ServiceModel;

    open spec fn view(&self) -> ServiceModel {
        ServiceModel {
            name: self.name@,
            package: self.package@,
            identifier: self.identifier@,
            methods: self.methods@.map_values(|m: MethodDescription| m@),
            comment: texts(self.comment@),
        }
    }
}

impl ServiceModel {
    /// The names that routes are built from are not empty.
    pub open spec fn well_formed(self) -> bool {
        &&& self.package.len() > 0
        &&& self.identifier.len() > 0
        &&& forall|i: int| 0 <= i < self.methods.len() ==> (#[trigger] self.methods[i]).identifier.len() > 0
    }
}

fn copy_lines(v: &Vec<String>) -> (r: Vec<String>)
    ensures
        texts(r@) == texts(v@),
{
    let mut r: Vec<String> = Vec::new();
    let mut i: usize = 0;
    while i < v.len()
        invariant
            i <= v@.len(),
            r@.len() == i,
            forall|k: int| 0 <= k < i ==> (#[trigger] r@[k])@ == v@[k]@,
        decreases v@.len() - i,
    {
        r.push(v[i].clone());
        i = i + 1;
    }
    assert(texts(r@) =~= texts(v@));
    r
}

impl MethodDescription {
    /// References to the request and response types inside `proto_path`.
    pub fn request_response_name(&self, proto_path: &str) -> (r: (String, String))
        ensures
            r.0@ == type_ref(proto_path@, self.request_type@),
            r.1@ == type_ref(proto_path@, self.response_type@),
    {
        let mut req = String::from_str(proto_path);
        req.append("::");
        req.append(self.request_type.as_str());
        let mut res = String::from_str(proto_path);
        res.append("::");
        res.append(self.response_type.as_str());
        (req, res)
    }
}

impl Method for MethodDescription {
    fn name(&self) -> String {
        self.name.clone()
    }

    fn identifier(&self) -> String {
        self.identifier.clone()
    }

    fn client_streaming(&self) -> bool {
        self.client_streaming
    }

    fn server_streaming(&self) -> bool {
        self.server_streaming
    }

    fn comment(&self) -> Vec<String> {
        copy_lines(&self.comment)
    }

    fn codec_path(&self) -> String {
        self.codec_path.clone()
    }

    fn request_response_name(&self, proto_path: &str) -> (String, String) {
        MethodDescription::request_response_name(self, proto_path)
    }
}

impl Service for ServiceDescription {
    type Method = MethodDescription;

    fn name(&self) -> String {
        self.name.clone()
    }

    fn package(&self) -> String {
        self.package.clone()
    }

    fn identifier(&self) -> String {
        self.identifier.clone()
    }

    fn methods(&self) -> &Vec<MethodDescription> {
        &self.methods
    }

    fn comment(&self) -> Vec<String> {
        copy_lines(&self.comment)
    }
}

} // verus!

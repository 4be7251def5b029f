//! The contract document of the credential-check API.
//!
//! The document model is the single source of truth for the published API
//! description: service metadata, the request/response schemas with their
//! embedded constraints, and the named API-key security scheme. The model is
//! assembled as a base document, a post-processing modifier installs the
//! security scheme, and the result is rendered to its canonical YAML form.

use vstd::prelude::*;
use vstd::string::StringExecFns;
use crate::handler::ApiError;
use crate::handler::MAX_PREFIX_LEN;
use crate::handler::MIN_PREFIX_LEN;
use crate::render::spec_doc_yaml;

verus! {

/// Contact listed in the service metadata.
pub struct Contact {
    /// Name of the maintaining organisation.
    pub name: String,
    /// Contact email address.
    pub email: String,
    /// Contact web address.
    pub url: String,
}

/// The mathematical view of a [`Contact`].
#[verifier::ext_equal]
pub struct ContactView {
    /// Name of the maintaining organisation.
    pub name: Seq<char>,
    /// Contact email address.
    pub email: Seq<char>,
    /// Contact web address.
    pub url: Seq<char>,
}

impl View for Contact {
    type V = ContactView;

    open spec fn view(&self) -> ContactView {
        ContactView { name: self.name@, email: self.email@, url: self.url@ }
    }
}

/// Service metadata of the contract document.
pub struct Info {
    /// Title of the service.
    pub title: String,
    /// Human-readable description of the service.
    pub description: String,
    /// Contact of the maintaining organisation.
    pub contact: Contact,
    /// Version of the published contract.
    pub version: String,
}

/// The mathematical view of an [`Info`].
#[verifier::ext_equal]
pub struct InfoView {
    /// Title of the service.
    pub title: Seq<char>,
    /// Human-readable description of the service.
    pub description: Seq<char>,
    /// Contact of the maintaining organisation.
    pub contact: ContactView,
    /// Version of the published contract.
    pub version: Seq<char>,
}

impl View for Info {
    type V = InfoView;

    open spec fn view(&self) -> InfoView {
        InfoView {
            title: self.title@,
            description: self.description@,
            contact: self.contact@,
            version: self.version@,
        }
    }
}

/// A server entry of the contract document.
pub struct Server {
    /// Base address of the server.
    pub url: String,
    /// Human-readable description of the server.
    pub description: String,
}

/// The mathematical view of a [`Server`].
#[verifier::ext_equal]
pub struct ServerView {
    /// Base address of the server.
    pub url: Seq<char>,
    /// Human-readable description of the server.
    pub description: Seq<char>,
}

impl View for Server {
    type V = ServerView;

    open spec fn view(&self) -> ServerView {
        ServerView { url: self.url@, description: self.description@ }
    }
}

/// One property of an object schema.
pub struct FieldSchema {
    /// Property name.
    pub name: String,
    /// Human-readable description of the property.
    pub description: String,
    /// Whether the property is an array of strings rather than a single string.
    pub is_array: bool,
    /// Format of the string values, such as `base64`.
    pub format: String,
    /// Illustrative example value.
    pub example: String,
    /// Smallest allowed character length, if constrained.
    pub min_length: Option<usize>,
    /// Largest allowed character length, if constrained.
    pub max_length: Option<usize>,
}

/// The mathematical view of a [`FieldSchema`].
#[verifier::ext_equal]
pub struct FieldSchemaView {
    /// Property name.
    pub name: Seq<char>,
    /// Human-readable description of the property.
    pub description: Seq<char>,
    /// Whether the property is an array of strings rather than a single string.
    pub is_array: bool,
    /// Format of the string values, such as `base64`.
    pub format: Seq<char>,
    /// Illustrative example value.
    pub example: Seq<char>,
    /// Smallest allowed character length, if constrained.
    pub min_length: Option<usize>,
    /// Largest allowed character length, if constrained.
    pub max_length: Option<usize>,
}

impl View for FieldSchema {
    type V = FieldSchemaView;

    open spec fn view(&self) -> FieldSchemaView {
        FieldSchemaView {
            name: self.name@,
            description: self.description@,
            is_array: self.is_array,
            format: self.format@,
            example: self.example@,
            min_length: self.min_length,
            max_length: self.max_length,
        }
    }
}

/// A named object schema of the component registry.
pub struct ObjectSchema {
    /// Schema name, used as the registry key and in references.
    pub name: String,
    /// Human-readable description of the schema.
    pub description: String,
    /// The properties of the object, all required, in declaration order.
    pub fields: Vec<FieldSchema>,
}

/// The mathematical view of an [`ObjectSchema`].
#[verifier::ext_equal]
pub struct ObjectSchemaView {
    /// Schema name, used as the registry key and in references.
    pub name: Seq<char>,
    /// Human-readable description of the schema.
    pub description: Seq<char>,
    /// The properties of the object, all required, in declaration order.
    pub fields: Seq<FieldSchemaView>,
}

impl View for ObjectSchema {
    type V = ObjectSchemaView;

    open spec fn view(&self) -> ObjectSchemaView {
        ObjectSchemaView {
            name: self.name@,
            description: self.description@,
            fields: self.fields@.map_values(|f: FieldSchema| f@),
        }
    }
}

/// Where an API key is carried.
pub enum ApiKeyLocation {
    /// In a request header.
    Header,
    /// In a query parameter.
    Query,
    /// In a cookie.
    Cookie,
}

/// A named API-key security scheme.
pub struct ApiKeyScheme {
    /// Scheme name, used as the registry key and as the key carrier's name.
    pub name: String,
    /// Where the key is carried.
    pub location: ApiKeyLocation,
    /// Human-readable description of the scheme.
    pub description: String,
}

/// The mathematical view of an [`ApiKeyScheme`].
#[verifier::ext_equal]
pub struct ApiKeySchemeView {
    /// Scheme name, used as the registry key and as the key carrier's name.
    pub name: Seq<char>,
    /// Where the key is carried.
    pub location: ApiKeyLocation,
    /// Human-readable description of the scheme.
    pub description: Seq<char>,
}

impl View for ApiKeyScheme {
    type V = ApiKeySchemeView;

    open spec fn view(&self) -> ApiKeySchemeView {
        ApiKeySchemeView {
            name: self.name@,
            location: self.location,
            description: self.description@,
        }
    }
}

/// The component registry of the contract document.
pub struct Components {
    /// The named object schemas, in declaration order.
    pub schemas: Vec<ObjectSchema>,
    /// The named security schemes, in installation order, keyed by name.
    pub security_schemes: Vec<ApiKeyScheme>,
}

/// The mathematical view of a [`Components`].
#[verifier::ext_equal]
pub struct ComponentsView {
    /// The named object schemas, in declaration order.
    pub schemas: Seq<ObjectSchemaView>,
    /// The named security schemes, in installation order, keyed by name.
    pub security_schemes: Seq<ApiKeySchemeView>,
}

impl View for Components {
    type V = ComponentsView;

    open spec fn view(&self) -> ComponentsView {
        ComponentsView {
            schemas: self.schemas@.map_values(|s: ObjectSchema| s@),
            security_schemes: self.security_schemes@.map_values(|s: ApiKeyScheme| s@),
        }
    }
}

/// The endpoint entry of the contract document: one path with a POST
/// operation, a JSON request and success response, and a plain-text
/// client-error response with illustrative examples.
pub struct PathItem {
    /// The path of the endpoint.
    pub path: String,
    /// Human-readable description of the operation.
    pub description: String,
    /// Name of the schema of the request body.
    pub request_schema: String,
    /// Human-readable description of the success response.
    pub ok_description: String,
    /// Name of the schema of the success response body.
    pub ok_schema: String,
    /// Human-readable description of the client-error response.
    pub bad_request_description: String,
    /// Example body of a rejection for a too-short prefix.
    pub too_short_example: String,
    /// Example body of a rejection for a too-long prefix.
    pub too_long_example: String,
}

/// The mathematical view of a [`PathItem`].
#[verifier::ext_equal]
pub struct PathItemView {
    /// The path of the endpoint.
    pub path: Seq<char>,
    /// Human-readable description of the operation.
    pub description: Seq<char>,
    /// Name of the schema of the request body.
    pub request_schema: Seq<char>,
    /// Human-readable description of the success response.
    pub ok_description: Seq<char>,
    /// Name of the schema of the success response body.
    pub ok_schema: Seq<char>,
    /// Human-readable description of the client-error response.
    pub bad_request_description: Seq<char>,
    /// Example body of a rejection for a too-short prefix.
    pub too_short_example: Seq<char>,
    /// Example body of a rejection for a too-long prefix.
    pub too_long_example: Seq<char>,
}

impl View for PathItem {
    type V = PathItemView;

    open spec fn view(&self) -> PathItemView {
        PathItemView {
            path: self.path@,
            description: self.description@,
            request_schema: self.request_schema@,
            ok_description: self.ok_description@,
            ok_schema: self.ok_schema@,
            bad_request_description: self.bad_request_description@,
            too_short_example: self.too_short_example@,
            too_long_example: self.too_long_example@,
        }
    }
}

/// The whole contract document.
pub struct OpenApiDoc {
    /// Version of the document format.
    pub openapi: String,
    /// Service metadata.
    pub info: Info,
    /// The known servers, in declaration order.
    pub servers: Vec<Server>,
    /// The endpoints, in declaration order.
    pub paths: Vec<PathItem>,
    /// The component registry; the base document carries one from the start.
    pub components: Option<Components>,
    /// Names of the security schemes every request must satisfy.
    pub security: Vec<String>,
}

/// The mathematical view of an [`OpenApiDoc`].
#[verifier::ext_equal]
pub struct OpenApiDocView {
    /// Version of the document format.
    pub openapi: Seq<char>,
    /// Service metadata.
    pub info: InfoView,
    /// The known servers, in declaration order.
    pub servers: Seq<ServerView>,
    /// The endpoints, in declaration order.
    pub paths: Seq<PathItemView>,
    /// The component registry; the base document carries one from the start.
    pub components: Option<ComponentsView>,
    /// Names of the security schemes every request must satisfy.
    pub security: Seq<Seq<char>>,
}

impl View for OpenApiDoc {
    type V = OpenApiDocView;

    open spec fn view(&self) -> OpenApiDocView {
        OpenApiDocView {
            openapi: self.openapi@,
            info: self.info@,
            servers: self.servers@.map_values(|s: Server| s@),
            paths: self.paths@.map_values(|p: PathItem| p@),
            components: match self.components {
                Some(c) => Some(c@),
                None => None,
            },
            security: self.security@.map_values(|s: String| s@),
        }
    }
}

/// The registry after a scheme is installed: the scheme replaces the first
/// entry of its name, or is appended when no entry carries its name.
pub open spec fn spec_add_scheme(
    schemes: Seq<ApiKeySchemeView>,
    scheme: ApiKeySchemeView,
) -> Seq<ApiKeySchemeView>
    decreases schemes.len(),
{
    if schemes.len() == 0 {
        seq![scheme]
    } else if schemes[0].name == scheme.name {
        seq![scheme] + schemes.drop_first()
    } else {
        seq![schemes[0]] + spec_add_scheme(schemes.drop_first(), scheme)
    }
}

proof fn lemma_add_scheme_found(schemes: Seq<ApiKeySchemeView>, scheme: ApiKeySchemeView, i: int)
    requires
        0 <= i < schemes.len(),
        forall|k: int| 0 <= k < i ==> schemes[k].name != scheme.name,
        schemes[i].name == scheme.name,
    ensures
        spec_add_scheme(schemes, scheme) == schemes.update(i, scheme),
    decreases i,
{
    if i == 0 {
        assert(seq![scheme] + schemes.drop_first() =~= schemes.update(0, scheme));
    } else {
        assert forall|k: int| 0 <= k < i - 1 implies schemes.drop_first()[k].name
            != scheme.name by {
            assert(schemes.drop_first()[k] == schemes[k + 1]);
        }
        lemma_add_scheme_found(schemes.drop_first(), scheme, i - 1);
        assert(seq![schemes[0]] + schemes.drop_first().update(i - 1, scheme) =~= schemes.update(
            i,
            scheme,
        ));
    }
}

proof fn lemma_add_scheme_absent(schemes: Seq<ApiKeySchemeView>, scheme: ApiKeySchemeView)
    requires
        forall|k: int| 0 <= k < schemes.len() ==> schemes[k].name != scheme.name,
    ensures
        spec_add_scheme(schemes, scheme) == schemes.push(scheme),
    decreases schemes.len(),
{
    if schemes.len() == 0 {
        assert(spec_add_scheme(schemes, scheme) =~= schemes.push(scheme));
    } else {
        assert forall|k: int|
            0 <= k < schemes.drop_first().len() implies schemes.drop_first()[k].name
            != scheme.name by {
            assert(schemes.drop_first()[k] == schemes[k + 1]);
        }
        lemma_add_scheme_absent(schemes.drop_first(), scheme);
        assert(seq![schemes[0]] + schemes.drop_first().push(scheme) =~= schemes.push(scheme));
    }
}

/// Law: installing the same security scheme a second time leaves the registry
/// exactly as the first installation left it.
pub proof fn lemma_add_scheme_idempotent(
    schemes: Seq<ApiKeySchemeView>,
    scheme: ApiKeySchemeView,
)
    ensures
        spec_add_scheme(spec_add_scheme(schemes, scheme), scheme) == spec_add_scheme(
            schemes,
            scheme,
        ),
    decreases schemes.len(),
{
    if schemes.len() == 0 {
        let once = seq![scheme];
        assert(seq![scheme] + once.drop_first() =~= once);
    } else if schemes[0].name == scheme.name {
        let once = seq![scheme] + schemes.drop_first();
        assert(once[0] == scheme);
        assert(seq![scheme] + once.drop_first() =~= once);
    } else {
        lemma_add_scheme_idempotent(schemes.drop_first(), scheme);
        let once = seq![schemes[0]] + spec_add_scheme(schemes.drop_first(), scheme);
        assert(once.drop_first() =~= spec_add_scheme(schemes.drop_first(), scheme));
        assert(seq![once[0]] + spec_add_scheme(once.drop_first(), scheme) =~= once);
    }
}

impl Components {
    /// Adds the scheme to the registry under its name, replacing an entry
    /// already carrying that name.
    pub fn add_security_scheme(&mut self, scheme: ApiKeyScheme)
        ensures
            final(self)@ == (ComponentsView {
                security_schemes: spec_add_scheme(old(self)@.security_schemes, scheme@),
                ..old(self)@
            }),
    {
        let ghost orig = self@.security_schemes;
        let n = self.security_schemes.len();
        let mut i: usize = 0;
        while i < n
            invariant
                *self == *old(self),
                n == self.security_schemes.len(),
                i <= n,
                orig == self@.security_schemes,
                forall|k: int| 0 <= k < i ==> orig[k].name != scheme@.name,
            decreases n - i,
        {
            let candidate = &self.security_schemes[i];
            if candidate.name == scheme.name {
                proof {
                    lemma_add_scheme_found(orig, scheme@, i as int);
                }
                self.security_schemes.set(i, scheme);
                proof {
                    assert(self@.security_schemes =~= orig.update(i as int, scheme@));
                    assert(self@ =~~= (ComponentsView {
                        security_schemes: spec_add_scheme(orig, scheme@),
                        ..old(self)@
                    }));
                }
                return ;
            }
            i += 1;
        }
        proof {
            lemma_add_scheme_absent(orig, scheme@);
        }
        self.security_schemes.push(scheme);
        proof {
            assert(self@.security_schemes =~= orig.push(scheme@));
            assert(self@ =~~= (ComponentsView {
                security_schemes: spec_add_scheme(orig, scheme@),
                ..old(self)@
            }));
        }
    }
}

/// The view of the scheme that [`SecuritySchemas`] installs: a named API key,
/// carried in a custom request header.
pub open spec fn spec_api_key_scheme() -> ApiKeySchemeView {
    ApiKeySchemeView {
        name: "My-Api-Key"@,
        location: ApiKeyLocation::Header,
        description: "Custom authentication header"@,
    }
}

/// Custom security schemas for the API: the post-processing modifier that
/// installs the API-key scheme into the component registry.
pub struct SecuritySchemas;

impl SecuritySchemas {
    /// Installs the API-key scheme into the document's component registry.
    ///
    /// The modifier may only run once the base component registry exists;
    /// running it earlier is a programming-contract violation.
    pub fn modify(&self, openapi: &mut OpenApiDoc)
        requires
            old(openapi)@.components is Some,
        ensures
            final(openapi)@ == (OpenApiDocView {
                components: Some(
                    ComponentsView {
                        security_schemes: spec_add_scheme(
                            old(openapi)@.components->Some_0.security_schemes,
                            spec_api_key_scheme(),
                        ),
                        ..old(openapi)@.components->Some_0
                    },
                ),
                ..old(openapi)@
            }),
    {
        let scheme = ApiKeyScheme {
            name: String::from_str("My-Api-Key"),
            location: ApiKeyLocation::Header,
            description: String::from_str("Custom authentication header"),
        };
        proof {
            assert(scheme@ =~~= spec_api_key_scheme());
        }
        match &mut openapi.components {
            Some(components) => {
                components.add_security_scheme(scheme);
            },
            None => {
                proof {
                    assert(false);
                }
            },
        }
    }
}

/// The service metadata of the published document.
pub open spec fn spec_base_info() -> InfoView {
    InfoView {
        title: "Credential Check API definition"@,
        description: "Enables clients to anonymously check whether their credentials have been involved in a known data breach."@,
        contact: ContactView {
            name: "Identeco"@,
            email: "contact@identeco.de"@,
            url: "https://identeco.de"@,
        },
        version: "1.0.2"@,
    }
}

/// The schema of the request body: the anonymity prefix, constrained to the
/// shared length bounds, and the blinded credential token.
pub open spec fn spec_request_schema() -> ObjectSchemaView {
    ObjectSchemaView {
        name: "CcRequest"@,
        description: "The request body for the check_credentials endpoint."@,
        fields: seq![
            FieldSchemaView {
                name: "prefix"@,
                description: "Prefix of the hashed email"@,
                is_array: false,
                format: "base64"@,
                example: "cri4"@,
                min_length: Some(MIN_PREFIX_LEN),
                max_length: Some(MAX_PREFIX_LEN),
            },
            FieldSchemaView {
                name: "credentials"@,
                description: "Cryptographically treated email-password combination"@,
                is_array: false,
                format: "base64"@,
                example: "02a8902230d79486d10ec6eb6"@,
                min_length: None,
                max_length: None,
            },
        ],
    }
}

/// The schema of the response body: the double-blinded token and the matching
/// breach-corpus entries.
pub open spec fn spec_response_schema() -> ObjectSchemaView {
    ObjectSchemaView {
        name: "CcResponse"@,
        description: "The response body for the check_credentials endpoint."@,
        fields: seq![
            FieldSchemaView {
                name: "credentials"@,
                description: "The double blinded user input"@,
                is_array: false,
                format: "base64"@,
                example: "0326da340f354cec41be1c1246"@,
                min_length: None,
                max_length: None,
            },
            FieldSchemaView {
                name: "matches"@,
                description: "Cryptographically treated email-password combinations associated with the user provided prefix"@,
                is_array: true,
                format: "base64"@,
                example: "de6ceb426447319caff8d28f42"@,
                min_length: None,
                max_length: None,
            },
        ],
    }
}

/// The server entry of the published document.
pub open spec fn spec_base_server() -> ServerView {
    ServerView { url: "http://localhost:8080/"@, description: "Local development server"@ }
}

/// The endpoint entry of the published document. The client-error examples
/// are the handler's own rejection messages for a three-character and a
/// seven-character prefix.
pub open spec fn spec_base_path() -> PathItemView {
    PathItemView {
        path: "/check_credentials"@,
        description: "Checks whether an email-password combination is known to have been involved in a data breach."@,
        request_schema: "CcRequest"@,
        ok_description: "OK"@,
        ok_schema: "CcResponse"@,
        bad_request_description: "The request body contained ill formatted values"@,
        too_short_example: (ApiError::PrefixTooShort { len: 3 }).spec_message(),
        too_long_example: (ApiError::PrefixTooLong { len: 7 }).spec_message(),
    }
}

/// The base document: metadata, schemas, and the endpoint, with an empty
/// security-scheme registry.
pub open spec fn spec_base_document() -> OpenApiDocView {
    OpenApiDocView {
        openapi: "3.1.0"@,
        info: spec_base_info(),
        servers: seq![spec_base_server()],
        paths: seq![spec_base_path()],
        components: Some(
            ComponentsView {
                schemas: seq![spec_request_schema(), spec_response_schema()],
                security_schemes: Seq::empty(),
            },
        ),
        security: seq!["My-Api-Key"@],
    }
}

/// The document model after the modifier pipeline: the base document with the
/// API-key scheme installed.
pub open spec fn spec_published_model() -> OpenApiDocView {
    OpenApiDocView {
        components: Some(
            ComponentsView {
                schemas: seq![spec_request_schema(), spec_response_schema()],
                security_schemes: seq![spec_api_key_scheme()],
            },
        ),
        ..spec_base_document()
    }
}

/// The canonical YAML text of the published contract document.
pub open spec fn spec_document() -> Seq<char> {
    spec_doc_yaml(spec_published_model())
}

/// The contract document of the credential-check API.
pub struct ApiDocs;

impl ApiDocs {
    /// Assembles the base document.
    pub fn base_document() -> (doc: OpenApiDoc)
        ensures
            doc@ == spec_base_document(),
    {
        let contact = Contact {
            name: String::from_str("Identeco"),
            email: String::from_str("contact@identeco.de"),
            url: String::from_str("https://identeco.de"),
        };
        let info = Info {
            title: String::from_str("Credential Check API definition"),
            description: String::from_str(
                "Enables clients to anonymously check whether their credentials have been involved in a known data breach.",
            ),
            contact,
            version: String::from_str("1.0.2"),
        };
        proof {
            assert(info@ =~~= spec_base_info());
        }
        let mut servers: Vec<Server> = Vec::new();
        servers.push(
            Server {
                url: String::from_str("http://localhost:8080/"),
                description: String::from_str("Local development server"),
            },
        );
        let too_short = (ApiError::PrefixTooShort { len: 3 }).message();
        let too_long = (ApiError::PrefixTooLong { len: 7 }).message();
        let mut paths: Vec<PathItem> = Vec::new();
        paths.push(
            PathItem {
                path: String::from_str("/check_credentials"),
                description: String::from_str(
                    "Checks whether an email-password combination is known to have been involved in a data breach.",
                ),
                request_schema: String::from_str("CcRequest"),
                ok_description: String::from_str("OK"),
                ok_schema: String::from_str("CcResponse"),
                bad_request_description: String::from_str(
                    "The request body contained ill formatted values",
                ),
                too_short_example: too_short,
                too_long_example: too_long,
            },
        );
        proof {
            assert(paths@.map_values(|p: PathItem| p@) =~~= seq![spec_base_path()]);
        }
        let mut request_fields: Vec<FieldSchema> = Vec::new();
        request_fields.push(
            FieldSchema {
                name: String::from_str("prefix"),
                description: String::from_str("Prefix of the hashed email"),
                is_array: false,
                format: String::from_str("base64"),
                example: String::from_str("cri4"),
                min_length: Some(MIN_PREFIX_LEN),
                max_length: Some(MAX_PREFIX_LEN),
            },
        );
        request_fields.push(
            FieldSchema {
                name: String::from_str("credentials"),
                description: String::from_str(
                    "Cryptographically treated email-password combination",
                ),
                is_array: false,
                format: String::from_str("base64"),
                example: String::from_str("02a8902230d79486d10ec6eb6"),
                min_length: None,
                max_length: None,
            },
        );
        let request_schema = ObjectSchema {
            name: String::from_str("CcRequest"),
            description: String::from_str("The request body for the check_credentials endpoint."),
            fields: request_fields,
        };
        proof {
            assert(request_schema@ =~~= spec_request_schema());
        }
        let mut response_fields: Vec<FieldSchema> = Vec::new();
        response_fields.push(
            FieldSchema {
                name: String::from_str("credentials"),
                description: String::from_str("The double blinded user input"),
                is_array: false,
                format: String::from_str("base64"),
                example: String::from_str("0326da340f354cec41be1c1246"),
                min_length: None,
                max_length: None,
            },
        );
        response_fields.push(
            FieldSchema {
                name: String::from_str("matches"),
                description: String::from_str(
                    "Cryptographically treated email-password combinations associated with the user provided prefix",
                ),
                is_array: true,
                format: String::from_str("base64"),
                example: String::from_str("de6ceb426447319caff8d28f42"),
                min_length: None,
                max_length: None,
            },
        );
        let response_schema = ObjectSchema {
            name: String::from_str("CcResponse"),
            description: String::from_str("The response body for the check_credentials endpoint."),
            fields: response_fields,
        };
        proof {
            assert(response_schema@ =~~= spec_response_schema());
        }
        let mut schemas: Vec<ObjectSchema> = Vec::new();
        schemas.push(request_schema);
        schemas.push(response_schema);
        let components = Components { schemas, security_schemes: Vec::new() };
        proof {
            assert(components@.schemas =~~= seq![spec_request_schema(), spec_response_schema()]);
            assert(components@.security_schemes =~~= Seq::<ApiKeySchemeView>::empty());
        }
        let mut security: Vec<String> = Vec::new();
        security.push(String::from_str("My-Api-Key"));
        let doc = OpenApiDoc {
            openapi: String::from_str("3.1.0"),
            info,
            servers,
            paths,
            components: Some(components),
            security,
        };
        proof {
            assert(doc@.servers =~~= seq![spec_base_server()]);
            assert(doc@.security =~~= seq!["My-Api-Key"@]);
            assert(doc@ =~~= spec_base_document());
        }
        doc
    }

    /// Generates the canonical YAML text of the published contract document.
    ///
    /// The text is a pure function of the schema declarations: the base
    /// document is assembled, the security-scheme modifier is applied, and the
    /// result is rendered to its canonical form.
    pub fn generate() -> (r: String)
        ensures
            r@ == spec_document(),
    {
        let mut doc = ApiDocs::base_document();
        let modifier = SecuritySchemas;
        modifier.modify(&mut doc);
        proof {
            assert(spec_add_scheme(Seq::empty(), spec_api_key_scheme()) =~= seq![
                spec_api_key_scheme(),
            ]);
            assert(doc@ =~~= spec_published_model());
        }
        doc.to_yaml()
    }
}

/// Law: the published document's component registry holds exactly one
/// security scheme, named `My-Api-Key` and carried in a request header.
pub proof fn lemma_one_security_scheme()
    ensures
        spec_published_model().components is Some,
        spec_published_model().components->Some_0.security_schemes.len() == 1,
        spec_published_model().components->Some_0.security_schemes[0] == spec_api_key_scheme(),
        spec_api_key_scheme().name == "My-Api-Key"@,
        spec_api_key_scheme().location == ApiKeyLocation::Header,
{
}

/// Law: generating the document twice from the unchanged schema declarations
/// yields byte-identical text, since each generated text equals the canonical
/// text of the published model.
pub proof fn lemma_generate_deterministic(first: Seq<char>, second: Seq<char>)
    requires
        first == spec_document(),
        second == spec_document(),
    ensures
        first == second,
{
}

/// Law: the published document constrains the `prefix` field to exactly the
/// length bounds that the handler enforces, so the description and the
/// validator cannot drift apart.
pub proof fn lemma_schema_bounds_match_validator()
    ensures
        spec_request_schema().fields[0].name == "prefix"@,
        spec_request_schema().fields[0].min_length == Some(MIN_PREFIX_LEN),
        spec_request_schema().fields[0].max_length == Some(MAX_PREFIX_LEN),
{
}

} // verus!

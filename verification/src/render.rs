//! Canonical YAML rendering of the contract document.
//!
//! The canonical form quotes every string value, uses two-space indentation,
//! block-style lists, and a line break after every entry, so that equal
//! document models render to byte-identical text.

use vstd::prelude::*;
use vstd::string::StringExecFns;
use crate::decimal::spec_decimal;
use crate::decimal::usize_to_decimal;
use crate::docs::ApiKeyLocation;
use crate::docs::ApiKeyScheme;
use crate::docs::ApiKeySchemeView;
use crate::docs::Components;
use crate::docs::ComponentsView;
use crate::docs::FieldSchema;
use crate::docs::FieldSchemaView;
use crate::docs::Info;
use crate::docs::InfoView;
use crate::docs::ObjectSchema;
use crate::docs::ObjectSchemaView;
use crate::docs::OpenApiDoc;
use crate::docs::OpenApiDocView;
use crate::docs::PathItem;
use crate::docs::PathItemView;
use crate::docs::Server;
use crate::docs::ServerView;

verus! {

/// A `key: "value"` entry at the given indentation, closed by a line break.
pub open spec fn spec_quoted_kv(indent: Seq<char>, key: Seq<char>, value: Seq<char>) -> Seq<char> {
    indent + key + ": \""@ + value + "\"\n"@
}

/// A `key: n` entry with a bare decimal value, closed by a line break.
pub open spec fn spec_num_kv(indent: Seq<char>, key: Seq<char>, n: nat) -> Seq<char> {
    indent + key + ": "@ + spec_decimal(n) + "\n"@
}

fn push_quoted_kv(out: &mut String, indent: &str, key: &str, value: &str)
    ensures
        final(out)@ == old(out)@ + spec_quoted_kv(indent@, key@, value@),
{
    out.append(indent);
    out.append(key);
    out.append(": \"");
    out.append(value);
    out.append("\"\n");
    proof {
        assert(out@ =~= old(out)@ + spec_quoted_kv(indent@, key@, value@));
    }
}

fn push_num_kv(out: &mut String, indent: &str, key: &str, n: usize)
    ensures
        final(out)@ == old(out)@ + spec_num_kv(indent@, key@, n as nat),
{
    out.append(indent);
    out.append(key);
    out.append(": ");
    let numeral = usize_to_decimal(n);
    out.append(numeral.as_str());
    out.append("\n");
    proof {
        assert(out@ =~= old(out)@ + spec_num_kv(indent@, key@, n as nat));
    }
}

/// One property of an object schema, as rendered under `properties:`.
pub open spec fn spec_field_yaml(f: FieldSchemaView) -> Seq<char> {
    "        "@ + f.name + ":\n"@ + spec_field_type_yaml(f) + spec_quoted_kv(
        "          "@,
        "description"@,
        f.description,
    ) + spec_quoted_kv("          "@, "example"@, f.example) + spec_field_bounds_yaml(f)
}

/// The type and format entries of a property: a plain string, or an array of
/// strings with the format on the items.
pub open spec fn spec_field_type_yaml(f: FieldSchemaView) -> Seq<char> {
    if f.is_array {
        spec_quoted_kv("          "@, "type"@, "array"@) + "          items:\n"@ + spec_quoted_kv(
            "            "@,
            "type"@,
            "string"@,
        ) + spec_quoted_kv("            "@, "format"@, f.format)
    } else {
        spec_quoted_kv("          "@, "type"@, "string"@) + spec_quoted_kv(
            "          "@,
            "format"@,
            f.format,
        )
    }
}

/// The length-bound entries of a property, empty where unconstrained.
pub open spec fn spec_field_bounds_yaml(f: FieldSchemaView) -> Seq<char> {
    (match f.min_length {
        Some(n) => spec_num_kv("          "@, "minLength"@, n as nat),
        None => Seq::<char>::empty(),
    }) + (match f.max_length {
        Some(n) => spec_num_kv("          "@, "maxLength"@, n as nat),
        None => Seq::<char>::empty(),
    })
}

/// The properties of an object schema, in declaration order.
pub open spec fn spec_fields_yaml(fields: Seq<FieldSchemaView>) -> Seq<char>
    decreases fields.len(),
{
    if fields.len() == 0 {
        Seq::empty()
    } else {
        spec_fields_yaml(fields.drop_last()) + spec_field_yaml(fields.last())
    }
}

/// One entry of the `required:` list of an object schema.
pub open spec fn spec_required_item(f: FieldSchemaView) -> Seq<char> {
    "      - \""@ + f.name + "\"\n"@
}

/// The `required:` list of an object schema, in declaration order.
pub open spec fn spec_required_yaml(fields: Seq<FieldSchemaView>) -> Seq<char>
    decreases fields.len(),
{
    if fields.len() == 0 {
        Seq::empty()
    } else {
        spec_required_yaml(fields.drop_last()) + spec_required_item(fields.last())
    }
}

fn push_field_type(out: &mut String, field: &FieldSchema)
    ensures
        final(out)@ == old(out)@ + spec_field_type_yaml(field@),
{
    if field.is_array {
        push_quoted_kv(out, "          ", "type", "array");
        out.append("          items:\n");
        push_quoted_kv(out, "            ", "type", "string");
        push_quoted_kv(out, "            ", "format", field.format.as_str());
        proof {
            assert(out@ =~= old(out)@ + spec_field_type_yaml(field@));
        }
    } else {
        push_quoted_kv(out, "          ", "type", "string");
        push_quoted_kv(out, "          ", "format", field.format.as_str());
        proof {
            assert(out@ =~= old(out)@ + spec_field_type_yaml(field@));
        }
    }
}

fn push_field_bounds(out: &mut String, field: &FieldSchema)
    ensures
        final(out)@ == old(out)@ + spec_field_bounds_yaml(field@),
{
    if let Some(n) = field.min_length {
        push_num_kv(out, "          ", "minLength", n);
    }
    if let Some(n) = field.max_length {
        push_num_kv(out, "          ", "maxLength", n);
    }
    proof {
        assert(out@ =~= old(out)@ + spec_field_bounds_yaml(field@));
    }
}

fn push_field(out: &mut String, field: &FieldSchema)
    ensures
        final(out)@ == old(out)@ + spec_field_yaml(field@),
{
    out.append("        ");
    out.append(field.name.as_str());
    out.append(":\n");
    push_field_type(out, field);
    push_quoted_kv(out, "          ", "description", field.description.as_str());
    push_quoted_kv(out, "          ", "example", field.example.as_str());
    push_field_bounds(out, field);
    proof {
        assert(out@ =~= old(out)@ + spec_field_yaml(field@));
    }
}

fn push_required_item(out: &mut String, field: &FieldSchema)
    ensures
        final(out)@ == old(out)@ + spec_required_item(field@),
{
    out.append("      - \"");
    out.append(field.name.as_str());
    out.append("\"\n");
    proof {
        assert(out@ =~= old(out)@ + spec_required_item(field@));
    }
}

/// A named object schema, as rendered under `schemas:`.
pub open spec fn spec_schema_yaml(s: ObjectSchemaView) -> Seq<char> {
    "    "@ + s.name + ":\n"@ + spec_quoted_kv("      "@, "type"@, "object"@) + spec_quoted_kv(
        "      "@,
        "description"@,
        s.description,
    ) + "      properties:\n"@ + spec_fields_yaml(s.fields) + "      required:\n"@
        + spec_required_yaml(s.fields)
}

/// The named object schemas of the registry, in declaration order.
pub open spec fn spec_schemas_yaml(schemas: Seq<ObjectSchemaView>) -> Seq<char>
    decreases schemas.len(),
{
    if schemas.len() == 0 {
        Seq::empty()
    } else {
        spec_schemas_yaml(schemas.drop_last()) + spec_schema_yaml(schemas.last())
    }
}

#[verifier::rlimit(50)]
fn push_schema(out: &mut String, schema: &ObjectSchema)
    ensures
        final(out)@ == old(out)@ + spec_schema_yaml(schema@),
{
    out.append("    ");
    out.append(schema.name.as_str());
    out.append(":\n");
    push_quoted_kv(out, "      ", "type", "object");
    push_quoted_kv(out, "      ", "description", schema.description.as_str());
    out.append("      properties:\n");
    let ghost fields_view = schema@.fields;
    let ghost mid = out@;
    let n = schema.fields.len();
    let mut i: usize = 0;
    while i < n
        invariant
            n == schema.fields.len(),
            fields_view == schema@.fields,
            i <= n,
            out@ == mid + spec_fields_yaml(fields_view.take(i as int)),
        decreases n - i,
    {
        proof {
            assert(fields_view[i as int] == schema.fields@[i as int]@);
        }
        push_field(out, &schema.fields[i]);
        proof {
            assert(fields_view.take(i as int + 1).drop_last() =~= fields_view.take(i as int));
            assert(fields_view.take(i as int + 1).last() == fields_view[i as int]);
            assert(out@ =~= mid + spec_fields_yaml(fields_view.take(i as int + 1)));
        }
        i += 1;
    }
    proof {
        assert(fields_view.take(n as int) =~= fields_view);
    }
    out.append("      required:\n");
    let ghost mid2 = out@;
    let mut j: usize = 0;
    while j < n
        invariant
            n == schema.fields.len(),
            fields_view == schema@.fields,
            j <= n,
            out@ == mid2 + spec_required_yaml(fields_view.take(j as int)),
        decreases n - j,
    {
        proof {
            assert(fields_view[j as int] == schema.fields@[j as int]@);
        }
        push_required_item(out, &schema.fields[j]);
        proof {
            assert(fields_view.take(j as int + 1).drop_last() =~= fields_view.take(j as int));
            assert(fields_view.take(j as int + 1).last() == fields_view[j as int]);
            assert(out@ =~= mid2 + spec_required_yaml(fields_view.take(j as int + 1)));
        }
        j += 1;
    }
    proof {
        assert(fields_view.take(n as int) =~= fields_view);
        assert(out@ =~= old(out)@ + spec_schema_yaml(schema@));
    }
}

/// The YAML name of an API-key carrier location.
pub open spec fn spec_location_yaml(location: ApiKeyLocation) -> Seq<char> {
    match location {
        ApiKeyLocation::Header => "header"@,
        ApiKeyLocation::Query => "query"@,
        ApiKeyLocation::Cookie => "cookie"@,
    }
}

fn location_str(location: &ApiKeyLocation) -> (r: &'static str)
    ensures
        r@ == spec_location_yaml(*location),
{
    match location {
        ApiKeyLocation::Header => "header",
        ApiKeyLocation::Query => "query",
        ApiKeyLocation::Cookie => "cookie",
    }
}

/// A named security scheme, as rendered under `securitySchemes:`.
pub open spec fn spec_scheme_yaml(s: ApiKeySchemeView) -> Seq<char> {
    "    "@ + s.name + ":\n"@ + spec_quoted_kv("      "@, "type"@, "apiKey"@) + spec_quoted_kv(
        "      "@,
        "in"@,
        spec_location_yaml(s.location),
    ) + spec_quoted_kv("      "@, "name"@, s.name) + spec_quoted_kv(
        "      "@,
        "description"@,
        s.description,
    )
}

/// The named security schemes of the registry, in installation order.
pub open spec fn spec_schemes_yaml(schemes: Seq<ApiKeySchemeView>) -> Seq<char>
    decreases schemes.len(),
{
    if schemes.len() == 0 {
        Seq::empty()
    } else {
        spec_schemes_yaml(schemes.drop_last()) + spec_scheme_yaml(schemes.last())
    }
}

fn push_scheme(out: &mut String, scheme: &ApiKeyScheme)
    ensures
        final(out)@ == old(out)@ + spec_scheme_yaml(scheme@),
{
    out.append("    ");
    out.append(scheme.name.as_str());
    out.append(":\n");
    push_quoted_kv(out, "      ", "type", "apiKey");
    push_quoted_kv(out, "      ", "in", location_str(&scheme.location));
    push_quoted_kv(out, "      ", "name", scheme.name.as_str());
    push_quoted_kv(out, "      ", "description", scheme.description.as_str());
    proof {
        assert(out@ =~= old(out)@ + spec_scheme_yaml(scheme@));
    }
}

/// The component registry of the document.
pub open spec fn spec_components_yaml(c: ComponentsView) -> Seq<char> {
    "components:\n"@ + "  schemas:\n"@ + spec_schemas_yaml(c.schemas) + "  securitySchemes:\n"@
        + spec_schemes_yaml(c.security_schemes)
}

fn push_components(out: &mut String, components: &Components)
    ensures
        final(out)@ == old(out)@ + spec_components_yaml(components@),
{
    out.append("components:\n");
    out.append("  schemas:\n");
    let ghost schemas_view = components@.schemas;
    let ghost mid = out@;
    let n = components.schemas.len();
    let mut i: usize = 0;
    while i < n
        invariant
            n == components.schemas.len(),
            schemas_view == components@.schemas,
            i <= n,
            out@ == mid + spec_schemas_yaml(schemas_view.take(i as int)),
        decreases n - i,
    {
        proof {
            assert(schemas_view[i as int] == components.schemas@[i as int]@);
        }
        push_schema(out, &components.schemas[i]);
        proof {
            assert(schemas_view.take(i as int + 1).drop_last() =~= schemas_view.take(i as int));
            assert(schemas_view.take(i as int + 1).last() == schemas_view[i as int]);
            assert(out@ =~= mid + spec_schemas_yaml(schemas_view.take(i as int + 1)));
        }
        i += 1;
    }
    proof {
        assert(schemas_view.take(n as int) =~= schemas_view);
    }
    out.append("  securitySchemes:\n");
    let ghost schemes_view = components@.security_schemes;
    let ghost mid2 = out@;
    let n2 = components.security_schemes.len();
    let mut j: usize = 0;
    while j < n2
        invariant
            n2 == components.security_schemes.len(),
            schemes_view == components@.security_schemes,
            j <= n2,
            out@ == mid2 + spec_schemes_yaml(schemes_view.take(j as int)),
        decreases n2 - j,
    {
        proof {
            assert(schemes_view[j as int] == components.security_schemes@[j as int]@);
        }
        push_scheme(out, &components.security_schemes[j]);
        proof {
            assert(schemes_view.take(j as int + 1).drop_last() =~= schemes_view.take(j as int));
            assert(schemes_view.take(j as int + 1).last() == schemes_view[j as int]);
            assert(out@ =~= mid2 + spec_schemes_yaml(schemes_view.take(j as int + 1)));
        }
        j += 1;
    }
    proof {
        assert(schemes_view.take(n2 as int) =~= schemes_view);
        assert(out@ =~= old(out)@ + spec_components_yaml(components@));
    }
}

/// The service metadata of the document.
pub open spec fn spec_info_yaml(info: InfoView) -> Seq<char> {
    spec_quoted_kv("  "@, "title"@, info.title) + spec_quoted_kv(
        "  "@,
        "description"@,
        info.description,
    ) + "  contact:\n"@ + spec_quoted_kv("    "@, "name"@, info.contact.name) + spec_quoted_kv(
        "    "@,
        "email"@,
        info.contact.email,
    ) + spec_quoted_kv("    "@, "url"@, info.contact.url) + spec_quoted_kv(
        "  "@,
        "version"@,
        info.version,
    )
}

fn push_info(out: &mut String, info: &Info)
    ensures
        final(out)@ == old(out)@ + spec_info_yaml(info@),
{
    push_quoted_kv(out, "  ", "title", info.title.as_str());
    push_quoted_kv(out, "  ", "description", info.description.as_str());
    out.append("  contact:\n");
    push_quoted_kv(out, "    ", "name", info.contact.name.as_str());
    push_quoted_kv(out, "    ", "email", info.contact.email.as_str());
    push_quoted_kv(out, "    ", "url", info.contact.url.as_str());
    push_quoted_kv(out, "  ", "version", info.version.as_str());
    proof {
        assert(out@ =~= old(out)@ + spec_info_yaml(info@));
    }
}

/// A server entry, as rendered under `servers:`.
pub open spec fn spec_server_yaml(s: ServerView) -> Seq<char> {
    spec_quoted_kv("- "@, "url"@, s.url) + spec_quoted_kv("  "@, "description"@, s.description)
}

/// The server entries of the document, in declaration order.
pub open spec fn spec_servers_yaml(servers: Seq<ServerView>) -> Seq<char>
    decreases servers.len(),
{
    if servers.len() == 0 {
        Seq::empty()
    } else {
        spec_servers_yaml(servers.drop_last()) + spec_server_yaml(servers.last())
    }
}

fn push_server(out: &mut String, server: &Server)
    ensures
        final(out)@ == old(out)@ + spec_server_yaml(server@),
{
    push_quoted_kv(out, "- ", "url", server.url.as_str());
    push_quoted_kv(out, "  ", "description", server.description.as_str());
    proof {
        assert(out@ =~= old(out)@ + spec_server_yaml(server@));
    }
}

/// The request half of an endpoint entry.
pub open spec fn spec_path_request_yaml(p: PathItemView) -> Seq<char> {
    "  "@ + p.path + ":\n"@ + "    post:\n"@ + spec_quoted_kv(
        "      "@,
        "description"@,
        p.description,
    ) + "      requestBody:\n"@ + "        content:\n"@ + "          application/json:\n"@
        + "            schema:\n"@ + "              $ref: \"#/components/schemas/"@
        + p.request_schema + "\"\n"@ + "        required: true\n"@
}

/// The response half of an endpoint entry.
pub open spec fn spec_path_responses_yaml(p: PathItemView) -> Seq<char> {
    "      responses:\n"@ + "        \"200\":\n"@ + spec_quoted_kv(
        "          "@,
        "description"@,
        p.ok_description,
    ) + "          content:\n"@ + "            application/json:\n"@ + "              schema:\n"@
        + "                $ref: \"#/components/schemas/"@ + p.ok_schema + "\"\n"@
        + "        \"400\":\n"@ + spec_quoted_kv(
        "          "@,
        "description"@,
        p.bad_request_description,
    ) + "          content:\n"@ + "            text/plain:\n"@ + "              schema:\n"@
        + spec_quoted_kv("                "@, "type"@, "string"@) + "              examples:\n"@
        + "                TooShort:\n"@ + spec_quoted_kv(
        "                  "@,
        "value"@,
        p.too_short_example,
    ) + "                TooLong:\n"@ + spec_quoted_kv(
        "                  "@,
        "value"@,
        p.too_long_example,
    )
}

/// An endpoint entry, as rendered under `paths:`.
pub open spec fn spec_path_yaml(p: PathItemView) -> Seq<char> {
    spec_path_request_yaml(p) + spec_path_responses_yaml(p)
}

/// The endpoint entries of the document, in declaration order.
pub open spec fn spec_paths_yaml(paths: Seq<PathItemView>) -> Seq<char>
    decreases paths.len(),
{
    if paths.len() == 0 {
        Seq::empty()
    } else {
        spec_paths_yaml(paths.drop_last()) + spec_path_yaml(paths.last())
    }
}

#[verifier::rlimit(50)]
fn push_path_request(out: &mut String, path: &PathItem)
    ensures
        final(out)@ == old(out)@ + spec_path_request_yaml(path@),
{
    out.append("  ");
    out.append(path.path.as_str());
    out.append(":\n");
    out.append("    post:\n");
    push_quoted_kv(out, "      ", "description", path.description.as_str());
    out.append("      requestBody:\n");
    out.append("        content:\n");
    out.append("          application/json:\n");
    out.append("            schema:\n");
    out.append("              $ref: \"#/components/schemas/");
    out.append(path.request_schema.as_str());
    out.append("\"\n");
    out.append("        required: true\n");
    proof {
        assert(out@ =~= old(out)@ + spec_path_request_yaml(path@));
    }
}

#[verifier::rlimit(50)]
fn push_path_responses(out: &mut String, path: &PathItem)
    ensures
        final(out)@ == old(out)@ + spec_path_responses_yaml(path@),
{
    out.append("      responses:\n");
    out.append("        \"200\":\n");
    push_quoted_kv(out, "          ", "description", path.ok_description.as_str());
    out.append("          content:\n");
    out.append("            application/json:\n");
    out.append("              schema:\n");
    out.append("                $ref: \"#/components/schemas/");
    out.append(path.ok_schema.as_str());
    out.append("\"\n");
    out.append("        \"400\":\n");
    push_quoted_kv(out, "          ", "description", path.bad_request_description.as_str());
    out.append("          content:\n");
    out.append("            text/plain:\n");
    out.append("              schema:\n");
    push_quoted_kv(out, "                ", "type", "string");
    out.append("              examples:\n");
    out.append("                TooShort:\n");
    push_quoted_kv(out, "                  ", "value", path.too_short_example.as_str());
    out.append("                TooLong:\n");
    push_quoted_kv(out, "                  ", "value", path.too_long_example.as_str());
    proof {
        assert(out@ =~= old(out)@ + spec_path_responses_yaml(path@));
    }
}

fn push_path(out: &mut String, path: &PathItem)
    ensures
        final(out)@ == old(out)@ + spec_path_yaml(path@),
{
    push_path_request(out, path);
    push_path_responses(out, path);
    proof {
        assert(out@ =~= old(out)@ + spec_path_yaml(path@));
    }
}

/// One entry of the document's `security:` list.
pub open spec fn spec_security_entry(name: Seq<char>) -> Seq<char> {
    "- "@ + name + ": []\n"@
}

/// The document's `security:` list, in declaration order.
pub open spec fn spec_security_yaml(names: Seq<Seq<char>>) -> Seq<char>
    decreases names.len(),
{
    if names.len() == 0 {
        Seq::empty()
    } else {
        spec_security_yaml(names.drop_last()) + spec_security_entry(names.last())
    }
}

fn push_security_entry(out: &mut String, name: &str)
    ensures
        final(out)@ == old(out)@ + spec_security_entry(name@),
{
    out.append("- ");
    out.append(name);
    out.append(": []\n");
    proof {
        assert(out@ =~= old(out)@ + spec_security_entry(name@));
    }
}

/// The whole document in its canonical YAML form.
pub open spec fn spec_doc_yaml(d: OpenApiDocView) -> Seq<char> {
    spec_quoted_kv(""@, "openapi"@, d.openapi) + "info:\n"@ + spec_info_yaml(d.info)
        + "servers:\n"@ + spec_servers_yaml(d.servers) + "paths:\n"@ + spec_paths_yaml(d.paths) + (
    match d.components {
        Some(c) => spec_components_yaml(c),
        None => Seq::<char>::empty(),
    }) + "security:\n"@ + spec_security_yaml(d.security)
}

impl OpenApiDoc {
    /// Renders the document to its canonical YAML form.
    #[verifier::rlimit(50)]
    pub fn to_yaml(&self) -> (r: String)
        ensures
            r@ == spec_doc_yaml(self@),
    {
        let mut out = String::new();
        push_quoted_kv(&mut out, "", "openapi", self.openapi.as_str());
        out.append("info:\n");
        push_info(&mut out, &self.info);
        out.append("servers:\n");
        let ghost servers_view = self@.servers;
        let ghost mid_servers = out@;
        let n_servers = self.servers.len();
        let mut i: usize = 0;
        while i < n_servers
            invariant
                n_servers == self.servers.len(),
                servers_view == self@.servers,
                i <= n_servers,
                out@ == mid_servers + spec_servers_yaml(servers_view.take(i as int)),
            decreases n_servers - i,
        {
            proof {
                assert(servers_view[i as int] == self.servers@[i as int]@);
            }
            push_server(&mut out, &self.servers[i]);
            proof {
                assert(servers_view.take(i as int + 1).drop_last() =~= servers_view.take(i as int));
                assert(servers_view.take(i as int + 1).last() == servers_view[i as int]);
                assert(out@ =~= mid_servers + spec_servers_yaml(servers_view.take(i as int + 1)));
            }
            i += 1;
        }
        proof {
            assert(servers_view.take(n_servers as int) =~= servers_view);
        }
        out.append("paths:\n");
        let ghost paths_view = self@.paths;
        let ghost mid_paths = out@;
        let n_paths = self.paths.len();
        let mut j: usize = 0;
        while j < n_paths
            invariant
                n_paths == self.paths.len(),
                paths_view == self@.paths,
                j <= n_paths,
                out@ == mid_paths + spec_paths_yaml(paths_view.take(j as int)),
            decreases n_paths - j,
        {
            proof {
                assert(paths_view[j as int] == self.paths@[j as int]@);
            }
            push_path(&mut out, &self.paths[j]);
            proof {
                assert(paths_view.take(j as int + 1).drop_last() =~= paths_view.take(j as int));
                assert(paths_view.take(j as int + 1).last() == paths_view[j as int]);
                assert(out@ =~= mid_paths + spec_paths_yaml(paths_view.take(j as int + 1)));
            }
            j += 1;
        }
        proof {
            assert(paths_view.take(n_paths as int) =~= paths_view);
        }
        match &self.components {
            Some(components) => {
                push_components(&mut out, components);
            },
            None => {
            },
        }
        out.append("security:\n");
        let ghost names_view = self@.security;
        let ghost mid_names = out@;
        let n_names = self.security.len();
        let mut q: usize = 0;
        while q < n_names
            invariant
                n_names == self.security.len(),
                names_view == self@.security,
                q <= n_names,
                out@ == mid_names + spec_security_yaml(names_view.take(q as int)),
            decreases n_names - q,
        {
            proof {
                assert(names_view[q as int] == self.security@[q as int]@);
            }
            push_security_entry(&mut out, self.security[q].as_str());
            proof {
                assert(names_view.take(q as int + 1).drop_last() =~= names_view.take(q as int));
                assert(names_view.take(q as int + 1).last() == names_view[q as int]);
                assert(out@ =~= mid_names + spec_security_yaml(names_view.take(q as int + 1)));
            }
            q += 1;
        }
        proof {
            assert(names_view.take(n_names as int) =~= names_view);
            assert(out@ =~= spec_doc_yaml(self@));
        }
        out
    }
}

} // verus!

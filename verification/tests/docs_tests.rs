use credential_check::docs::ApiDocs;
use credential_check::docs::ApiKeyLocation;
use credential_check::docs::SecuritySchemas;

#[test]
fn generate_twice_yields_identical_documents() {
    assert_eq!(ApiDocs::generate(), ApiDocs::generate());
}

#[test]
fn base_document_has_an_empty_scheme_registry() {
    let doc = ApiDocs::base_document();
    let components = doc.components.expect("the base document carries a component registry");
    assert_eq!(components.security_schemes.len(), 0);
    assert_eq!(components.schemas.len(), 2);
}

#[test]
fn security_scheme_registry_holds_exactly_one_header_key() {
    let mut doc = ApiDocs::base_document();
    let modifier = SecuritySchemas;
    modifier.modify(&mut doc);
    let components = doc.components.expect("the base document carries a component registry");
    assert_eq!(components.security_schemes.len(), 1);
    let scheme = &components.security_schemes[0];
    assert_eq!(scheme.name, "My-Api-Key");
    assert!(matches!(scheme.location, ApiKeyLocation::Header));
    assert_eq!(scheme.description, "Custom authentication header");
}

#[test]
fn installing_the_scheme_twice_is_idempotent() {
    let modifier = SecuritySchemas;
    let mut once = ApiDocs::base_document();
    modifier.modify(&mut once);
    let mut twice = ApiDocs::base_document();
    modifier.modify(&mut twice);
    modifier.modify(&mut twice);
    assert_eq!(once.to_yaml(), twice.to_yaml());
    let components = twice.components.expect("the base document carries a component registry");
    assert_eq!(components.security_schemes.len(), 1);
}

#[test]
fn rejection_examples_are_the_handler_messages() {
    let document = ApiDocs::generate();
    assert!(document.contains("Prefix has a length of 3, but the minimum is 4"));
    assert!(document.contains("Prefix has a length of 7, but the maximum is 6"));
}

#[test]
fn schema_bounds_match_the_validator_bounds() {
    let document = ApiDocs::generate();
    assert!(document.contains("minLength: 4"));
    assert!(document.contains("maxLength: 6"));
}

#[test]
fn generated_docs_are_up_to_date() {
    let current = r##"openapi: "3.1.0"
info:
  title: "Credential Check API definition"
  description: "Enables clients to anonymously check whether their credentials have been involved in a known data breach."
  contact:
    name: "Identeco"
    email: "contact@identeco.de"
    url: "https://identeco.de"
  version: "1.0.2"
servers:
- url: "http://localhost:8080/"
  description: "Local development server"
paths:
  /check_credentials:
    post:
      description: "Checks whether an email-password combination is known to have been involved in a data breach."
      requestBody:
        content:
          application/json:
            schema:
              $ref: "#/components/schemas/CcRequest"
        required: true
      responses:
        "200":
          description: "OK"
          content:
            application/json:
              schema:
                $ref: "#/components/schemas/CcResponse"
        "400":
          description: "The request body contained ill formatted values"
          content:
            text/plain:
              schema:
                type: "string"
              examples:
                TooShort:
                  value: "Prefix has a length of 3, but the minimum is 4"
                TooLong:
                  value: "Prefix has a length of 7, but the maximum is 6"
components:
  schemas:
    CcRequest:
      type: "object"
      description: "The request body for the check_credentials endpoint."
      properties:
        prefix:
          type: "string"
          format: "base64"
          description: "Prefix of the hashed email"
          example: "cri4"
          minLength: 4
          maxLength: 6
        credentials:
          type: "string"
          format: "base64"
          description: "Cryptographically treated email-password combination"
          example: "02a8902230d79486d10ec6eb6"
      required:
      - "prefix"
      - "credentials"
    CcResponse:
      type: "object"
      description: "The response body for the check_credentials endpoint."
      properties:
        credentials:
          type: "string"
          format: "base64"
          description: "The double blinded user input"
          example: "0326da340f354cec41be1c1246"
        matches:
          type: "array"
          items:
            type: "string"
            format: "base64"
          description: "Cryptographically treated email-password combinations associated with the user provided prefix"
          example: "de6ceb426447319caff8d28f42"
      required:
      - "credentials"
      - "matches"
  securitySchemes:
    My-Api-Key:
      type: "apiKey"
      in: "header"
      name: "My-Api-Key"
      description: "Custom authentication header"
security:
- My-Api-Key: []
"##;
    let newest = ApiDocs::generate();
    assert_eq!(newest, current, "the published document is not up to date");
}

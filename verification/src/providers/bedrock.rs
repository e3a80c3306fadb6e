//! The provider for the Bedrock runtime: model-invocation paths, signing
//! credentials, upstream headers, and the Titan and Anthropic request bodies.

use crate::error::AppError;
use crate::json::{
    array_value, as_array, as_float, as_text, as_uint, float_of, float_or, json_of, json_seq, literal,
    literal_value, member, member_of, new_object, object_value, parse_json, parsed_json,
    set_member, text_or, text_value, uint_or, uint_value, write_json, written_json, Json,
    JsonNumber,
};
use crate::headers::{
    ascii_bytes, fields_of, first_text, header_count, header_items, header_text, name_str,
    new_headers, plain_header_name, plain_header_value, set_header, values_named, Fields,
    Header, Headers, HEADER_ROOM,
};
use crate::text::{
    contains, contains_text, has_prefix, last_segment, last_segment_of, same_text, starts_with,
};
use vstd::prelude::*;

verus! {

/// The model that stands in where a request names none.
pub open spec fn default_model() -> Seq<char> {
    "amazon.titan-text-premier-v1:0"@
}

/// The model that `body` asks for.
pub open spec fn model_of(body: Json) -> Seq<char> {
    text_or(member_of(body, "model"@), default_model())
}

/// The text of a message; empty where its `content` is no string.
pub open spec fn content_of(message: Json) -> Seq<char> {
    text_or(member_of(message, "content"@), Seq::empty())
}

/// The role of a message; `user` where its `role` is no string.
pub open spec fn role_of(message: Json) -> Seq<char> {
    text_or(member_of(message, "role"@), "user"@)
}

/// The marker that opens a message of the given role in an Anthropic prompt.
pub open spec fn role_marker(role: Seq<char>) -> Seq<char> {
    if role == "system"@ {
        "\n\nSystem: "@
    } else if role == "assistant"@ {
        "\n\nAssistant: "@
    } else {
        "\n\nHuman: "@
    }
}

/// One message as it stands in an Anthropic prompt: its marker, then its text.
pub open spec fn segment_of(message: Json) -> Seq<char> {
    role_marker(role_of(message)) + content_of(message)
}

/// The segments of the messages, one for each, in their order.
pub open spec fn segments_of(messages: Seq<Json>) -> Seq<Seq<char>> {
    Seq::new(messages.len(), |i: int| segment_of(messages[i]))
}

/// The Anthropic prompt: the segments of all messages, one after the other.
pub open spec fn prompt_of(messages: Seq<Json>) -> Seq<char> {
    segments_of(messages).flatten()
}

/// The text of the last message; empty where there is none.
pub open spec fn last_content(messages: Seq<Json>) -> Seq<char> {
    if messages.len() == 0 {
        Seq::empty()
    } else {
        content_of(messages.last())
    }
}

/// The sampling temperature where the caller gives none.
pub open spec fn default_temperature() -> Json {
    literal("0.7"@)
}

/// The nucleus-sampling bound where the caller gives none.
pub open spec fn default_top_p() -> Json {
    literal("1.0"@)
}

/// The generation settings of a Titan request.
pub open spec fn titan_config(body: Json) -> Json {
    Json::Object(
        map![
            "maxTokenCount"@ => Json::Number(JsonNumber::PosInt(uint_or(member_of(body, "max_tokens"@), 1000))),
            "temperature"@ => float_or(member_of(body, "temperature"@), default_temperature()),
            "topP"@ => float_or(member_of(body, "top_p"@), default_top_p()),
            "stopSequences"@ => Json::Array(Seq::empty()),
        ],
    )
}

/// The body of a Titan request for the given caller body and its messages.
pub open spec fn titan_body(body: Json, messages: Seq<Json>) -> Json {
    Json::Object(
        map![
            "inputText"@ => Json::Text(last_content(messages)),
            "textGenerationConfig"@ => titan_config(body),
        ],
    )
}

/// The stop sequences of every Anthropic request.
pub open spec fn anthropic_stops() -> Json {
    Json::Array(seq![Json::Text("\n\nHuman:"@), Json::Text("\n\nAssistant:"@)])
}

/// The body of an Anthropic request for the given caller body and its messages.
pub open spec fn anthropic_body(body: Json, messages: Seq<Json>) -> Json {
    Json::Object(
        map![
            "prompt"@ => Json::Text(prompt_of(messages)),
            "max_tokens_to_sample"@ => Json::Number(JsonNumber::PosInt(uint_or(member_of(body, "max_tokens"@), 1000))),
            "temperature"@ => float_or(member_of(body, "temperature"@), default_temperature()),
            "top_p"@ => float_or(member_of(body, "top_p"@), default_top_p()),
            "top_k"@ => Json::Number(JsonNumber::PosInt(uint_or(member_of(body, "top_k"@), 250))),
            "stop_sequences"@ => anthropic_stops(),
        ],
    )
}

/// The host of the Bedrock runtime in `region`.
pub open spec fn runtime_host(region: Seq<char>) -> Seq<char> {
    "bedrock-runtime."@ + region + ".amazonaws.com"@
}

/// The origin of the Bedrock runtime in `region`.
pub open spec fn runtime_origin(region: Seq<char>) -> Seq<char> {
    "https://"@ + runtime_host(region)
}

/// The model that a caller path asks for: its last segment, and the default
/// model on a chat completions path and where the last segment is empty.
pub open spec fn model_in_path(path: Seq<char>) -> Seq<char> {
    if contains_text(path, "chat/completions"@) || last_segment(path, '/').len() == 0 {
        default_model()
    } else {
        last_segment(path, '/')
    }
}

/// The invocation path for a caller path.
pub open spec fn invoke_path(path: Seq<char>) -> Seq<char> {
    "/model/"@ + model_in_path(path) + "/invoke"@
}

/// Whether a header of this name is passed on to the upstream.
pub open spec fn is_forwarded(name: Seq<char>) -> bool {
    has_prefix(name, "x-aws-"@)
}

/// The value of the `content-type` header of every upstream request.
pub open spec fn json_media_type() -> Seq<u8> {
    ascii_bytes("application/json"@)
}

/// The headers of the upstream request: `content-type`, and each inbound header
/// that is passed on, with the last of its values.
pub open spec fn forwarded(inbound: Fields) -> Fields {
    Map::new(
        |name: Seq<char>| name == "content-type"@ || (is_forwarded(name) && inbound.contains_key(name)),
        |name: Seq<char>|
            if is_forwarded(name) && inbound.contains_key(name) {
                seq![inbound[name].last()]
            } else {
                seq![json_media_type()]
            },
    )
}

/// The upstream headers after the given inbound headers have been gone through.
pub open spec fn forwarded_from(items: Seq<Header>) -> Fields {
    Map::new(
        |name: Seq<char>| name == "content-type"@ || (is_forwarded(name) && values_named(items, name).len() > 0),
        |name: Seq<char>|
            if is_forwarded(name) && values_named(items, name).len() > 0 {
                seq![values_named(items, name).last()]
            } else {
                seq![json_media_type()]
            },
    )
}

/// Headers outside the `x-aws-` prefix have no part in the upstream headers:
/// two inbound sets that agree on the headers of that prefix give the same.
pub proof fn lemma_forwarded_by_prefix(a: Fields, b: Fields)
    requires
        forall|name: Seq<char>| is_forwarded(name) ==> a.contains_key(name) == b.contains_key(name),
        forall|name: Seq<char>| is_forwarded(name) && a.contains_key(name) ==> a[name] == b[name],
    ensures
        forwarded(a) == forwarded(b),
{
    assert(forwarded(a) =~= forwarded(b));
}

/// The signing credentials that the headers carry: access key, secret key and
/// region, the region being `region` where the headers name none. None where
/// the access key or the secret key is missing or is no visible ASCII text.
pub open spec fn credentials(fields: Fields, region: Seq<char>) -> Option<(Seq<char>, Seq<char>, Seq<char>)> {
    match first_text(fields, "x-aws-access-key-id"@) {
        Some(access) => match first_text(fields, "x-aws-secret-access-key"@) {
            Some(secret) => Some(
                (
                    access,
                    secret,
                    match first_text(fields, "x-aws-region"@) {
                        Some(named) => named,
                        None => region,
                    },
                ),
            ),
            None => None,
        },
        None => None,
    }
}

/// What a caller body is translated to: the Titan body where the model name
/// holds `titan`, else the Anthropic body where it holds `anthropic`, and an
/// error where the body has no `messages` array or the model is of neither
/// family.
pub open spec fn translated(body: Json) -> Result<Json, AppError> {
    match member_of(body, "messages"@) {
        Json::Array(messages) => if contains_text(model_of(body), "titan"@) {
            Ok(titan_body(body, messages))
        } else if contains_text(model_of(body), "anthropic"@) {
            Ok(anthropic_body(body, messages))
        } else {
            Err(AppError::UnsupportedModel)
        },
        _ => Err(AppError::InvalidRequestFormat),
    }
}

/// What the bytes of a caller body are translated to: `InvalidJson` where they
/// are no JSON text, else the error that stopped the translation, else the text
/// of the translated body.
pub open spec fn prepared(bytes: Seq<u8>) -> Result<Seq<u8>, AppError> {
    match parsed_json(bytes) {
        None => Err(AppError::InvalidJson),
        Some(body) => match translated(body) {
            Err(e) => Err(e),
            Ok(out) => Ok(written_json(out)),
        },
    }
}

/// A body without a `messages` array is turned away as `InvalidRequestFormat`,
/// whatever else it holds.
pub proof fn lemma_messages_required(body: Json)
    requires
        !(member_of(body, "messages"@) is Array),
    ensures
        translated(body) == Err::<Json, AppError>(AppError::InvalidRequestFormat),
{
}

/// A body with messages whose model is of neither family is turned away as
/// `UnsupportedModel`.
pub proof fn lemma_unknown_model(body: Json)
    requires
        member_of(body, "messages"@) is Array,
        !contains_text(model_of(body), "titan"@),
        !contains_text(model_of(body), "anthropic"@),
    ensures
        translated(body) == Err::<Json, AppError>(AppError::UnsupportedModel),
{
}

/// The Titan body of every Titan request: `inputText` is the text of the last
/// message, and each of the four generation settings is there; a setting is
/// the caller's where the caller gave a number of the right kind, else its
/// default.
pub proof fn lemma_titan_body(body: Json)
    requires
        member_of(body, "messages"@) is Array,
        contains_text(model_of(body), "titan"@),
    ensures
        translated(body) matches Ok(Json::Object(out)) && {
            &&& out.contains_key("inputText"@)
            &&& out["inputText"@] == Json::Text(last_content(member_of(body, "messages"@)->Array_0))
            &&& out.contains_key("textGenerationConfig"@)
            &&& out["textGenerationConfig"@] matches Json::Object(config) && {
                &&& config.contains_key("maxTokenCount"@)
                &&& config.contains_key("temperature"@)
                &&& config.contains_key("topP"@)
                &&& config.contains_key("stopSequences"@)
                &&& config["maxTokenCount"@] == match member_of(body, "max_tokens"@) {
                    Json::Number(JsonNumber::PosInt(n)) => Json::Number(JsonNumber::PosInt(n)),
                    _ => Json::Number(JsonNumber::PosInt(1000)),
                }
                &&& config["temperature"@] == match member_of(body, "temperature"@) {
                    Json::Number(n) => float_of(n),
                    _ => default_temperature(),
                }
                &&& config["topP"@] == match member_of(body, "top_p"@) {
                    Json::Number(n) => float_of(n),
                    _ => default_top_p(),
                }
                &&& config["stopSequences"@] == Json::Array(Seq::empty())
            }
        },
{
    reveal_strlit("inputText");
    reveal_strlit("textGenerationConfig");
    reveal_strlit("maxTokenCount");
    reveal_strlit("temperature");
    reveal_strlit("topP");
    reveal_strlit("stopSequences");
    let a = "inputText"@;
    let b = "textGenerationConfig"@;
    assert(a.len() != b.len());
    let k1 = "maxTokenCount"@;
    let k2 = "temperature"@;
    let k3 = "topP"@;
    let k4 = "stopSequences"@;
    assert(k1.len() != k2.len() && k1.len() != k3.len() && k2.len() != k3.len());
    assert(k4.len() != k2.len() && k4.len() != k3.len());
    assert(k1[0] != k4[0]);
}

/// The prompt of every Anthropic request: one segment for each message, in the
/// order of the messages, each made of the marker of the message's role and the
/// message's text. The marker is `System:` for `system`, `Assistant:` for
/// `assistant` and `Human:` for any other role.
pub proof fn lemma_anthropic_prompt(body: Json)
    requires
        member_of(body, "messages"@) is Array,
        !contains_text(model_of(body), "titan"@),
        contains_text(model_of(body), "anthropic"@),
    ensures
        translated(body) matches Ok(Json::Object(out)) && {
            let messages = member_of(body, "messages"@)->Array_0;
            &&& out.contains_key("prompt"@)
            &&& out["prompt"@] == Json::Text(segments_of(messages).flatten())
            &&& segments_of(messages).len() == messages.len()
            &&& forall|i: int|
                0 <= i < messages.len() ==> #[trigger] segments_of(messages)[i] == (if role_of(
                    messages[i],
                ) == "system"@ {
                    "\n\nSystem: "@
                } else if role_of(messages[i]) == "assistant"@ {
                    "\n\nAssistant: "@
                } else {
                    "\n\nHuman: "@
                }) + content_of(messages[i])
        },
{
    reveal_strlit("prompt");
    reveal_strlit("max_tokens_to_sample");
    reveal_strlit("temperature");
    reveal_strlit("top_p");
    reveal_strlit("top_k");
    reveal_strlit("stop_sequences");
    let p = "prompt"@;
    assert(p.len() != "max_tokens_to_sample"@.len());
    assert(p.len() != "temperature"@.len());
    assert(p.len() != "top_p"@.len());
    assert(p.len() != "top_k"@.len());
    assert(p.len() != "stop_sequences"@.len());
}

/// The member `key` of `body` as a non-negative integer, or `default`.
fn uint_member(body: &serde_json::Value, key: &str, default: u64) -> (r: serde_json::Value)
    ensures
        json_of(r) == Json::Number(JsonNumber::PosInt(uint_or(member_of(json_of(*body), key@), default))),
{
    match as_uint(member(body, key)) {
        Some(n) => uint_value(n),
        None => uint_value(default),
    }
}

/// The member `key` of `body` as a floating-point number, or the number that
/// the text `default` denotes.
fn float_member(body: &serde_json::Value, key: &str, default: &str) -> (r: serde_json::Value)
    ensures
        json_of(r) == float_or(member_of(json_of(*body), key@), literal(default@)),
{
    match as_float(member(body, key)) {
        Some(v) => v,
        None => literal_value(default),
    }
}

/// The text of a message.
fn message_content(message: &serde_json::Value) -> (r: &str)
    ensures
        r@ == content_of(json_of(*message)),
{
    match as_text(member(message, "content")) {
        Some(s) => s,
        None => {
            proof {
                reveal_strlit("");
                assert(""@ =~= Seq::<char>::empty());
            }
            ""
        },
    }
}

/// The marker that opens a message in an Anthropic prompt.
fn message_marker(message: &serde_json::Value) -> (r: &'static str)
    ensures
        r@ == role_marker(role_of(json_of(*message))),
{
    let role = match as_text(member(message, "role")) {
        Some(s) => s,
        None => "user",
    };
    if same_text(role, "system") {
        "\n\nSystem: "
    } else if same_text(role, "assistant") {
        "\n\nAssistant: "
    } else {
        "\n\nHuman: "
    }
}

/// The Anthropic prompt for the given messages.
fn anthropic_prompt(messages: &Vec<serde_json::Value>) -> (prompt: String)
    ensures
        prompt@ == prompt_of(json_seq(messages@)),
{
    let mut prompt = String::new();
    let mut i: usize = 0;
    while i < messages.len()
        invariant
            i <= messages.len(),
            prompt@ == prompt_of(json_seq(messages@).take(i as int)),
        decreases messages.len() - i,
    {
        let message = &messages[i];
        prompt.append(message_marker(message));
        prompt.append(message_content(message));
        proof {
            let all = json_seq(messages@);
            let before = segments_of(all.take(i as int));
            assert(segments_of(all.take(i + 1)) =~= before.push(segment_of(all[i as int])));
            before.lemma_flatten_push(segment_of(all[i as int]));
        }
        i += 1;
    }
    proof {
        assert(json_seq(messages@).take(messages.len() as int) =~= json_seq(messages@));
    }
    prompt
}

/// The Titan request for the caller body and its messages.
fn titan_request(body: &serde_json::Value, messages: &Vec<serde_json::Value>) -> (r: serde_json::Value)
    ensures
        json_of(r) == titan_body(json_of(*body), json_seq(messages@)),
{
    let content = if messages.len() == 0 {
        proof {
            reveal_strlit("");
            assert(""@ =~= Seq::<char>::empty());
        }
        ""
    } else {
        proof {
            assert(json_seq(messages@).last() == json_of(messages@[messages.len() - 1]));
        }
        message_content(&messages[messages.len() - 1])
    };
    let mut config = new_object();
    set_member(&mut config, "maxTokenCount", uint_member(body, "max_tokens", 1000));
    set_member(&mut config, "temperature", float_member(body, "temperature", "0.7"));
    set_member(&mut config, "topP", float_member(body, "top_p", "1.0"));
    let stops = array_value(Vec::new());
    proof {
        assert(json_seq(Seq::<serde_json::Value>::empty()) =~= Seq::<Json>::empty());
    }
    set_member(&mut config, "stopSequences", stops);
    let mut out = new_object();
    set_member(&mut out, "inputText", text_value(content));
    set_member(&mut out, "textGenerationConfig", object_value(config));
    object_value(out)
}

/// The Anthropic request for the caller body and its messages.
fn anthropic_request(body: &serde_json::Value, messages: &Vec<serde_json::Value>) -> (r: serde_json::Value)
    ensures
        json_of(r) == anthropic_body(json_of(*body), json_seq(messages@)),
{
    let prompt = anthropic_prompt(messages);
    let mut stops: Vec<serde_json::Value> = Vec::new();
    stops.push(text_value("\n\nHuman:"));
    stops.push(text_value("\n\nAssistant:"));
    proof {
        assert(json_seq(stops@) =~= seq![Json::Text("\n\nHuman:"@), Json::Text("\n\nAssistant:"@)]);
    }
    let mut out = new_object();
    set_member(&mut out, "prompt", text_value(prompt.as_str()));
    set_member(&mut out, "max_tokens_to_sample", uint_member(body, "max_tokens", 1000));
    set_member(&mut out, "temperature", float_member(body, "temperature", "0.7"));
    set_member(&mut out, "top_p", float_member(body, "top_p", "1.0"));
    set_member(&mut out, "top_k", uint_member(body, "top_k", 250));
    set_member(&mut out, "stop_sequences", array_value(stops));
    object_value(out)
}

/// The provider for the Bedrock runtime of one region.
pub struct BedrockProvider {
    base_url: String,
    region: String,
}

impl BedrockProvider {
    #[verifier::type_invariant]
    spec fn well_formed(self) -> bool {
        self.base_url@ == runtime_origin(self.region@)
    }

    /// The region whose runtime this provider addresses.
    pub closed spec fn region_name(&self) -> Seq<char> {
        self.region@
    }

    /// The provider for the runtime in `us-east-1`.
    pub fn new() -> (provider: Self)
        ensures
            provider.region_name() == "us-east-1"@,
    {
        let region = "us-east-1".to_owned();
        let mut base_url = "https://".to_owned();
        base_url.append("bedrock-runtime.");
        base_url.append(region.as_str());
        base_url.append(".amazonaws.com");
        proof {
            assert(base_url@ =~= runtime_origin(region@));
        }
        BedrockProvider { base_url, region }
    }

    /// The model that a path names: its last segment.
    pub fn get_model_name(&self, path: &str) -> (model: String)
        ensures
            model@ == last_segment(path@, '/'),
    {
        last_segment_of(path, '/').to_owned()
    }

    /// The origin that requests are sent to.
    pub fn base_url(&self) -> (url: &str)
        ensures
            url@ == runtime_origin(self.region_name()),
    {
        proof {
            use_type_invariant(self);
        }
        self.base_url.as_str()
    }

    /// The name under which this provider is registered.
    pub fn name(&self) -> (name: &'static str)
        ensures
            name@ == "bedrock"@,
    {
        "bedrock"
    }

    /// Rewrites a caller path into the invocation path of the model it names.
    pub fn transform_path(&self, path: &str) -> (out: String)
        ensures
            out@ == invoke_path(path@),
    {
        let segment = last_segment_of(path, '/');
        let model = if contains(path, "chat/completions") || segment.is_empty() {
            "amazon.titan-text-premier-v1:0"
        } else {
            segment
        };
        let mut out = "/model/".to_owned();
        out.append(model);
        out.append("/invoke");
        out
    }

    /// Whether upstream requests must be signed: always.
    pub fn requires_signing(&self) -> (signed: bool)
        ensures
            signed,
    {
        true
    }

    /// The host that a signature is computed for.
    pub fn get_signing_host(&self) -> (host: String)
        ensures
            host@ == runtime_host(self.region_name()),
    {
        let mut host = "bedrock-runtime.".to_owned();
        host.append(self.region.as_str());
        host.append(".amazonaws.com");
        host
    }

    /// The headers of the upstream request. It succeeds on every inbound set of
    /// fewer than `HEADER_ROOM` headers; on a larger one it may fail where the
    /// header set refuses a header for want of room.
    pub fn process_headers(&self, headers: &Headers) -> (r: Result<Headers, AppError>)
        ensures
            header_count(*headers) < HEADER_ROOM ==> r is Ok,
            r matches Ok(out) ==> fields_of(out) == forwarded(fields_of(*headers)),
            r matches Ok(out) ==> header_count(out) <= header_count(*headers) + 1,
            r matches Err(e) ==> e == AppError::InvalidHeader,
    {
        let items = header_items(headers);
        let ghost all = items@;
        let mut out = new_headers();
        proof {
            reveal_strlit("content-type");
            reveal_strlit("application/json");
        }
        let content_type = plain_header_name("content-type");
        let media_type = plain_header_value("application/json");
        if !set_header(&mut out, content_type, media_type) {
            return Err(AppError::InvalidHeader);
        }
        proof {
            assert(fields_of(out) =~= forwarded_from(all.take(0)));
        }
        for item in it: items
            invariant
                it.seq() == all,
                all.len() == header_count(*headers),
                header_count(out) <= 1 + it.index(),
                fields_of(out) == forwarded_from(all.take(it.index() as int)),
        {
            let ghost i = it.index() as int;
            let (name, value) = item;
            proof {
                assert(all.take(i + 1).drop_last() =~= all.take(i));
                assert(all.take(i + 1).last() == all[i]);
            }
            if starts_with(name_str(&name), "x-aws-") {
                if !set_header(&mut out, name, value) {
                    return Err(AppError::InvalidHeader);
                }
            }
            proof {
                assert(fields_of(out) =~= forwarded_from(all.take(i + 1)));
            }
        }
        proof {
            assert(all.take(all.len() as int) =~= all);
            assert(forwarded_from(all) =~= forwarded(fields_of(*headers)));
        }
        Ok(out)
    }

    /// The signing credentials that the headers carry.
    pub fn get_signing_credentials(&self, headers: &Headers) -> (r: Option<(String, String, String)>)
        ensures
            match credentials(fields_of(*headers), self.region_name()) {
                Some(c) => r matches Some(t) && t.0@ == c.0 && t.1@ == c.1 && t.2@ == c.2,
                None => r is None,
            },
    {
        proof {
            reveal_strlit("x-aws-access-key-id");
            reveal_strlit("x-aws-secret-access-key");
            reveal_strlit("x-aws-region");
        }
        let access_key = match header_text(headers, "x-aws-access-key-id") {
            Some(s) => s,
            None => {
                return None;
            },
        };
        let secret_key = match header_text(headers, "x-aws-secret-access-key") {
            Some(s) => s,
            None => {
                return None;
            },
        };
        let region = match header_text(headers, "x-aws-region") {
            Some(s) => s,
            None => self.region.as_str(),
        };
        Some((access_key.to_owned(), secret_key.to_owned(), region.to_owned()))
    }

    /// Translates a caller body into the body that the model it names expects.
    pub fn transform_request_body(&self, body: serde_json::Value) -> (r: Result<serde_json::Value, AppError>)
        ensures
            match translated(json_of(body)) {
                Ok(out) => r matches Ok(v) && json_of(v) == out,
                Err(e) => r matches Err(x) && x == e,
            },
    {
        let messages = match as_array(member(&body, "messages")) {
            Some(messages) => messages,
            None => {
                return Err(AppError::InvalidRequestFormat);
            },
        };
        let model = match as_text(member(&body, "model")) {
            Some(m) => m,
            None => "amazon.titan-text-premier-v1:0",
        };
        if contains(model, "titan") {
            Ok(titan_request(&body, messages))
        } else if contains(model, "anthropic") {
            Ok(anthropic_request(&body, messages))
        } else {
            Err(AppError::UnsupportedModel)
        }
    }

    /// Translates the bytes of a caller body into the bytes of the upstream
    /// body.
    pub fn prepare_request_body(&self, body: &[u8]) -> (r: Result<Vec<u8>, AppError>)
        ensures
            match prepared(body@) {
                Ok(text) => r matches Ok(bytes) && bytes@ == text,
                Err(e) => r matches Err(x) && x == e,
            },
    {
        let request = match parse_json(body) {
            Ok(v) => v,
            Err(_) => {
                return Err(AppError::InvalidJson);
            },
        };
        let out = match self.transform_request_body(request) {
            Ok(v) => v,
            Err(e) => {
                return Err(e);
            },
        };
        match write_json(&out) {
            Ok(bytes) => Ok(bytes),
            Err(_) => Err(AppError::InvalidJson),
        }
    }
}

} // verus!

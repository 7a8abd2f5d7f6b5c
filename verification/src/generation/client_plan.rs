//! How the generation client is set up for a provider: which API adapter
//! it speaks, which endpoint and key it uses, and which model it asks for.
//! The client itself is built by the caller from the plan.
use vstd::prelude::*;

use crate::generation::endpoints::{
    chars_eq_ignore_ascii_case, eq_ignore_ascii_case, normalize_azure_endpoint, normalize_openai_base_url,
    openai_base_url, resolve_model_name, resolved_model_name, to_lowercase, unicode_lowercase,
};
use crate::text::{chars_contains, chars_of, has_infix, push_str, str_eq, trim};

verus! {

/// The API dialect the client speaks.
#[derive(Clone, Copy, Debug, PartialEq, Eq, Structural)]
pub enum AdapterKind {
    OpenAI,
    OpenAIResp,
    Anthropic,
    Gemini,
    Vertex,
    Ollama,
    Groq,
    DeepSeek,
    Xai,
    Together,
    Fireworks,
    Cohere,
}

/// The adapter a lower-cased provider name stands for.
pub open spec fn adapter_for(lower: Seq<char>) -> Option<AdapterKind> {
    if lower == "openai"@ || lower == "openai_compat"@ || lower == "custom"@ || lower == "azure"@ {
        Some(AdapterKind::OpenAI)
    } else if lower == "openai_resp"@ || lower == "openai-responses"@ {
        Some(AdapterKind::OpenAIResp)
    } else if lower == "anthropic"@ {
        Some(AdapterKind::Anthropic)
    } else if lower == "gemini"@ {
        Some(AdapterKind::Gemini)
    } else if lower == "vertex"@ {
        Some(AdapterKind::Vertex)
    } else if lower == "ollama"@ {
        Some(AdapterKind::Ollama)
    } else if lower == "groq"@ {
        Some(AdapterKind::Groq)
    } else if lower == "deepseek"@ {
        Some(AdapterKind::DeepSeek)
    } else if lower == "xai"@ {
        Some(AdapterKind::Xai)
    } else if lower == "together"@ {
        Some(AdapterKind::Together)
    } else if lower == "fireworks"@ {
        Some(AdapterKind::Fireworks)
    } else if lower == "cohere"@ {
        Some(AdapterKind::Cohere)
    } else {
        None
    }
}

/// The message for a provider that is not supported.
pub open spec fn unsupported_provider_message(provider: Seq<char>) -> Seq<char> {
    "unsupported llm provider: "@ + unicode_lowercase(provider)
}

/// The adapter of a provider name, in any case.
pub fn parse_adapter(provider: &str) -> (r: Result<AdapterKind, String>)
    ensures
        match adapter_for(unicode_lowercase(provider@)) {
            Some(a) => r == Ok::<AdapterKind, String>(a),
            None => r matches Err(m) && m@ == unsupported_provider_message(provider@),
        },
{
    let lower = to_lowercase(provider);
    let p = lower.as_str();
    if str_eq(p, "openai") || str_eq(p, "openai_compat") || str_eq(p, "custom") || str_eq(p, "azure") {
        Ok(AdapterKind::OpenAI)
    } else if str_eq(p, "openai_resp") || str_eq(p, "openai-responses") {
        Ok(AdapterKind::OpenAIResp)
    } else if str_eq(p, "anthropic") {
        Ok(AdapterKind::Anthropic)
    } else if str_eq(p, "gemini") {
        Ok(AdapterKind::Gemini)
    } else if str_eq(p, "vertex") {
        Ok(AdapterKind::Vertex)
    } else if str_eq(p, "ollama") {
        Ok(AdapterKind::Ollama)
    } else if str_eq(p, "groq") {
        Ok(AdapterKind::Groq)
    } else if str_eq(p, "deepseek") {
        Ok(AdapterKind::DeepSeek)
    } else if str_eq(p, "xai") {
        Ok(AdapterKind::Xai)
    } else if str_eq(p, "together") {
        Ok(AdapterKind::Together)
    } else if str_eq(p, "fireworks") {
        Ok(AdapterKind::Fireworks)
    } else if str_eq(p, "cohere") {
        Ok(AdapterKind::Cohere)
    } else {
        let mut m = String::new();
        push_str(&mut m, "unsupported llm provider: ");
        push_str(&mut m, p);
        Err(m)
    }
}

/// The adapter a request goes out with: the Responses API wherever the
/// endpoint's URL holds `/responses`, else the provider's own.
pub open spec fn request_adapter(provider_adapter: AdapterKind, url: Seq<char>) -> AdapterKind {
    if has_infix(url, "/responses"@) {
        AdapterKind::OpenAIResp
    } else {
        provider_adapter
    }
}

/// Picks the adapter for a request to the endpoint at `url`.
pub fn model_adapter(provider_adapter: AdapterKind, url: &str) -> (r: AdapterKind)
    ensures
        r == request_adapter(provider_adapter, url@),
{
    if chars_contains(&chars_of(url), &chars_of("/responses")) {
        AdapterKind::OpenAIResp
    } else {
        provider_adapter
    }
}

/// How the client is set up.
#[derive(Clone, Debug)]
pub enum ClientPlan {
    /// A Vertex AI client, set up from the service account.
    Vertex,
    /// An Azure OpenAI client: every request goes to `url` with the key in
    /// the `api-key` header.
    Azure { adapter: AdapterKind, url: String, model_name: String, api_key: String },
    /// A client of the provider's adapter: to `endpoint` when there is one
    /// (else the adapter's own), with `api_key` when there is one (else the
    /// adapter's own credentials).
    Standard { adapter: AdapterKind, endpoint: Option<String>, model_name: String, api_key: Option<String> },
}

/// `ClientPlan` with its strings taken by their views.
pub enum ClientPlanView {
    Vertex,
    Azure { adapter: AdapterKind, url: Seq<char>, model_name: Seq<char>, api_key: Seq<char> },
    Standard { adapter: AdapterKind, endpoint: Option<Seq<char>>, model_name: Seq<char>, api_key: Option<Seq<char>> },
}

impl View for ClientPlan {
    type V = ClientPlanView;

    open spec fn view(&self) -> ClientPlanView {
        match self {
            ClientPlan::Vertex => ClientPlanView::Vertex,
            ClientPlan::Azure { adapter, url, model_name, api_key } => ClientPlanView::Azure {
                adapter: *adapter,
                url: url@,
                model_name: model_name@,
                api_key: api_key@,
            },
            ClientPlan::Standard { adapter, endpoint, model_name, api_key } => ClientPlanView::Standard {
                adapter: *adapter,
                endpoint: match endpoint {
                    Some(e) => Some(e@),
                    None => None,
                },
                model_name: model_name@,
                api_key: match api_key {
                    Some(k) => Some(k@),
                    None => None,
                },
            },
        }
    }
}

/// The endpoint the client is pointed at: the Azure URL trimmed, or the
/// OpenAI-style base URL normalized; none when that leaves nothing.
pub open spec fn chosen_endpoint(provider: Seq<char>, endpoint: Option<Seq<char>>) -> Option<Seq<char>> {
    match endpoint {
        None => None,
        Some(url) => {
            let n = if eq_ignore_ascii_case(provider, "azure"@) {
                trim(url)
            } else {
                openai_base_url(url)
            };
            if n.len() == 0 {
                None
            } else {
                Some(n)
            }
        },
    }
}

/// Why an Azure client without an endpoint cannot be set up.
pub open spec fn azure_endpoint_message() -> Seq<char> {
    "azure provider requires `endpoint` to be the full Azure URL. Chat Completions: …/openai/deployments/<deployment>/chat/completions?api-version=… Responses API (GPT-5+): …/openai/responses?api-version=…"@
}

/// The client set up for a provider, model, endpoint and key, or why there
/// is none.
pub open spec fn client_plan(
    provider: Seq<char>,
    model_name: Seq<char>,
    endpoint: Option<Seq<char>>,
    api_key: Seq<char>,
) -> Result<ClientPlanView, Seq<char>> {
    match adapter_for(unicode_lowercase(provider)) {
        None => Err(unsupported_provider_message(provider)),
        Some(adapter) => match resolved_model_name(provider, model_name, endpoint) {
            Err(e) => Err(e),
            Ok(m) => if eq_ignore_ascii_case(provider, "vertex"@) {
                Ok(ClientPlanView::Vertex)
            } else if eq_ignore_ascii_case(provider, "azure"@) {
                match chosen_endpoint(provider, endpoint) {
                    None => Err(azure_endpoint_message()),
                    Some(url) => if api_key.len() == 0 {
                        Err("azure provider requires an api key credential"@)
                    } else {
                        Ok(
                            ClientPlanView::Azure {
                                adapter: request_adapter(AdapterKind::OpenAI, url),
                                url,
                                model_name: m,
                                api_key,
                            },
                        )
                    },
                }
            } else {
                Ok(
                    ClientPlanView::Standard {
                        adapter,
                        endpoint: chosen_endpoint(provider, endpoint),
                        model_name: m,
                        api_key: if api_key.len() == 0 {
                            None
                        } else {
                            Some(api_key)
                        },
                    },
                )
            },
        },
    }
}

fn choose_endpoint(azure: bool, endpoint: Option<&str>) -> (r: Option<String>)
    ensures
        match endpoint {
            None => r is None,
            Some(url) => {
                let n = if azure { trim(url@) } else { openai_base_url(url@) };
                if n.len() == 0 {
                    r is None
                } else {
                    r matches Some(s) && s@ == n
                }
            },
        },
{
    match endpoint {
        None => None,
        Some(url) => {
            let n = if azure { normalize_azure_endpoint(url) } else { normalize_openai_base_url(url) };
            if chars_of(n.as_str()).len() == 0 {
                None
            } else {
                Some(n)
            }
        },
    }
}

/// Sets up the client for a provider, model, endpoint and key, as
/// `client_plan` says.
pub fn plan_client(provider: &str, model_name: &str, endpoint: Option<&str>, api_key: &str) -> (r: Result<ClientPlan, String>)
    ensures
        match client_plan(
            provider@,
            model_name@,
            match endpoint {
                Some(e) => Some(e@),
                None => None,
            },
            api_key@,
        ) {
            Ok(p) => r matches Ok(x) && x@ == p,
            Err(e) => r matches Err(x) && x@ == e,
        },
{
    let ghost ep = match endpoint {
        Some(e) => Some(e@),
        None => None,
    };
    let adapter = match parse_adapter(provider) {
        Ok(a) => a,
        Err(e) => return Err(e),
    };
    let model = match resolve_model_name(provider, model_name, endpoint) {
        Ok(m) => m,
        Err(e) => return Err(e),
    };
    let p = chars_of(provider);
    let azure = chars_eq_ignore_ascii_case(&p, &chars_of("azure"));
    let chosen = choose_endpoint(azure, endpoint);
    assert(match chosen {
        Some(s) => chosen_endpoint(provider@, ep) == Some(s@),
        None => chosen_endpoint(provider@, ep) is None,
    });
    if chars_eq_ignore_ascii_case(&p, &chars_of("vertex")) {
        return Ok(ClientPlan::Vertex);
    }
    let key_empty = chars_of(api_key).len() == 0;
    if azure {
        let url = match chosen {
            Some(u) => u,
            None => {
                return Err(String::from_str(
                    "azure provider requires `endpoint` to be the full Azure URL. Chat Completions: …/openai/deployments/<deployment>/chat/completions?api-version=… Responses API (GPT-5+): …/openai/responses?api-version=…",
                ));
            },
        };
        if key_empty {
            return Err(String::from_str("azure provider requires an api key credential"));
        }
        let a = model_adapter(AdapterKind::OpenAI, url.as_str());
        return Ok(ClientPlan::Azure { adapter: a, url, model_name: model, api_key: String::from_str(api_key) });
    }
    let key = if key_empty { None } else { Some(String::from_str(api_key)) };
    Ok(ClientPlan::Standard { adapter, endpoint: chosen, model_name: model, api_key: key })
}

} // verus!

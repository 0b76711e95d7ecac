//! The service mode: one image and one algorithm name per request.
//!
//! A request is answered in two steps. The first says what to submit to the
//! completion service: the agent of the algorithm and the image as a JPEG
//! payload. The second takes the JSON text out of the answer; that text is
//! the body of the response. Nothing is written to the result log.

use vstd::prelude::*;
use vstd::string::*;
use crate::error::InferError;
use crate::extract::{extract_fenced_json, extraction, text_is};
use crate::llm::{
    agent_for,
    agent_is,
    build_agent_from,
    defines,
    first_active,
    is_active,
    jpeg_image,
    jpeg_payload,
    lemma_first_active,
    AlgorithmConfig,
    AlgorithmView,
    ImagePayload,
    LLMConfig,
    LLMConfigView,
    PromptAgent,
};
use crate::text::{decimal, decimal_string};

verus! {

/// The route that takes an image in base64.
pub const BASE64_ROUTE: &'static str = "/base64";

/// The active definitions among `algorithms`, in order.
pub open spec fn active_only(algorithms: Seq<AlgorithmView>) -> Seq<AlgorithmView> {
    algorithms.filter(|algorithm: AlgorithmView| algorithm.activate)
}

/// The address that a server listens on: host, colon, port.
pub open spec fn listen_address(host: Seq<char>, port: nat) -> Seq<char> {
    host + ":"@ + decimal(port)
}

/// What one request submits to the completion service.
#[derive(Clone, Debug, PartialEq, Eq)]
pub struct Submission {
    pub agent: PromptAgent,
    pub image: ImagePayload,
}

/// The configuration of the service: the settings of the model and the
/// definitions that were active when it was loaded.
#[derive(Clone, Debug, PartialEq, Eq)]
pub struct LLMOperation {
    pub config: LLMConfig,
    pub algorithms: Vec<AlgorithmConfig>,
}

impl LLMOperation {
    /// Keeps the settings and, of the definitions, the active ones in their
    /// order.
    pub fn new(config: LLMConfig, algorithms: Vec<AlgorithmConfig>) -> (operation: LLMOperation)
        ensures
            operation.config == config,
            operation.algorithms.deep_view() == active_only(algorithms.deep_view()),
    {
        let mut kept: Vec<AlgorithmConfig> = Vec::new();
        let mut i: usize = 0;
        proof {
            reveal(Seq::filter);
            assert(kept.deep_view() =~= active_only(algorithms.deep_view().take(0)));
        }
        while i < algorithms.len()
            invariant
                i <= algorithms.len(),
                kept.deep_view() == active_only(algorithms.deep_view().take(i as int)),
            decreases algorithms.len() - i,
        {
            proof {
                algorithms.deep_view().take(i as int).lemma_filter_push(
                    algorithms@[i as int]@,
                    |algorithm: AlgorithmView| algorithm.activate,
                );
                assert(algorithms.deep_view().take(i + 1) =~= algorithms.deep_view().take(
                    i as int,
                ).push(algorithms@[i as int]@));
            }
            if algorithms[i].activate {
                let ghost before = kept.deep_view();
                kept.push(algorithms[i].duplicate());
                assert(kept.deep_view() =~= before.push(algorithms@[i as int]@));
            }
            i = i + 1;
        }
        assert(algorithms.deep_view().take(i as int) =~= algorithms.deep_view());
        LLMOperation { config, algorithms: kept }
    }

    /// Builds the agent of the algorithm named `algorithm_name`.
    ///
    /// Fails with `AlgorithmNotFound`, and only so, where no active
    /// definition has that name.
    pub fn get_agent(&self, algorithm_name: &str) -> (built: Result<PromptAgent, InferError>)
        ensures
            agent_is(built, agent_for(self.config@, self.algorithms.deep_view(), algorithm_name@)),
            built is Ok <==> is_active(self.algorithms.deep_view(), algorithm_name@),
    {
        build_agent_from(&self.config, &self.algorithms, algorithm_name)
    }

    /// Says what the request for `algorithm_name` with the image
    /// `image_base64` submits: the agent of the algorithm and the image as
    /// a JPEG payload. The base64 text is passed on as it came.
    ///
    /// Fails with `AlgorithmNotFound`, and only so, where no active
    /// definition has that name.
    pub fn infer(&self, algorithm_name: &str, image_base64: &str) -> (prepared: Result<
        Submission,
        InferError,
    >)
        ensures
            match prepared {
                Ok(submission) => {
                    &&& agent_for(self.config@, self.algorithms.deep_view(), algorithm_name@)
                        == Some(submission.agent@)
                    &&& submission.image@ == jpeg_payload(image_base64@)
                },
                Err(e) => e == InferError::AlgorithmNotFound && !is_active(
                    self.algorithms.deep_view(),
                    algorithm_name@,
                ),
            },
            prepared is Ok <==> is_active(self.algorithms.deep_view(), algorithm_name@),
    {
        match self.get_agent(algorithm_name) {
            Ok(agent) => Ok(Submission { agent, image: jpeg_image(image_base64) }),
            Err(e) => Err(e),
        }
    }

    /// Takes the JSON text out of the model's answer `markdown`. The text
    /// is the body of the response.
    pub fn parse_json_from_markdown(&self, markdown: &str) -> (extracted: Result<
        String,
        InferError,
    >)
        ensures
            text_is(extracted, extraction(markdown@)),
    {
        extract_fenced_json(markdown)
    }
}

/// Where the service listens.
#[derive(Clone, Debug, PartialEq, Eq)]
pub struct Server {
    pub addr: String,
}

impl Server {
    /// A server for the address `host:port`.
    pub fn new(host: &str, port: u16) -> (server: Server)
        ensures
            server.addr@ == listen_address(host@, port as nat),
    {
        let mut addr = host.to_owned();
        addr.append(":");
        addr.append(decimal_string(port as usize).as_str());
        Server { addr }
    }
}

/// What `first_active` finds after one more definition is put at the end:
/// what it found before, else the new definition if it defines the name.
pub proof fn lemma_first_active_push(
    algorithms: Seq<AlgorithmView>,
    last: AlgorithmView,
    name: Seq<char>,
)
    ensures
        first_active(algorithms.push(last), name) == match first_active(algorithms, name) {
            Some(i) => Some(i),
            None => if defines(last, name) {
                Some(algorithms.len() as int)
            } else {
                None
            },
        },
{
    let longer = algorithms.push(last);
    lemma_first_active(algorithms, name);
    lemma_first_active(longer, name);
    match first_active(algorithms, name) {
        Some(i) => {
            assert(longer[i] == algorithms[i]);
            let k = first_active(longer, name)->0;
            if k < i {
                assert(longer[k] == algorithms[k]);
            }
        },
        None => {
            if defines(last, name) {
                assert(longer[algorithms.len() as int] == last);
                let k = first_active(longer, name)->0;
                if k < algorithms.len() {
                    assert(longer[k] == algorithms[k]);
                }
            } else {
                if first_active(longer, name) is Some {
                    let k = first_active(longer, name)->0;
                    if k < algorithms.len() {
                        assert(longer[k] == algorithms[k]);
                    }
                }
            }
        },
    }
}

/// Dropping the inactive definitions changes no agent: the service, which
/// keeps only the active ones, builds for every name the agent that the
/// batch run builds from the full list.
pub proof fn lemma_active_only_keeps_agents(
    config: LLMConfigView,
    algorithms: Seq<AlgorithmView>,
    name: Seq<char>,
)
    ensures
        agent_for(config, active_only(algorithms), name) == agent_for(config, algorithms, name),
    decreases algorithms.len(),
{
    if algorithms.len() == 0 {
        reveal(Seq::filter);
    } else {
        let front = algorithms.drop_last();
        let last = algorithms.last();
        assert(algorithms =~= front.push(last));
        front.lemma_filter_push(last, |algorithm: AlgorithmView| algorithm.activate);
        lemma_active_only_keeps_agents(config, front, name);
        lemma_first_active_push(front, last, name);
        lemma_first_active(front, name);
        lemma_first_active(active_only(front), name);
        if last.activate {
            lemma_first_active_push(active_only(front), last, name);
        }
    }
}

} // verus!

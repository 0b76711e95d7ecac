//! The configuration model and the agent builder.
//!
//! A configuration is the model's settings together with a list of algorithm
//! definitions. An agent for an algorithm is composed from the two: where to
//! reach the completion service, which model to ask and how, and a stack of
//! three instructions in a fixed order.

use vstd::prelude::*;
use vstd::string::*;
use crate::error::InferError;
use crate::outside::{base64_encode, base64_fits, base64_standard};
use crate::text::copy_string;

verus! {

/// A decoding temperature, held as the bit pattern of its IEEE 754 binary64
/// value. The pattern is carried through to the agent unchanged.
#[derive(Clone, Copy, Debug, PartialEq, Eq, Structural)]
pub struct Temperature {
    pub bits: u64,
}

/// The settings of the model, shared by every agent of a run.
#[derive(Clone, Debug, PartialEq, Eq)]
pub struct LLMConfig {
    pub api_key: String,
    pub base_url: String,
    pub model: String,
    pub temperature: Temperature,
    pub system_prompt: String,
    pub result_prompt: String,
}

/// The mathematical value of an [`LLMConfig`].
pub struct LLMConfigView {
    pub api_key: Seq<char>,
    pub base_url: Seq<char>,
    pub model: Seq<char>,
    pub temperature: Temperature,
    pub system_prompt: Seq<char>,
    pub result_prompt: Seq<char>,
}

impl View for LLMConfig {
    type V = LLMConfigView;

    open spec fn view(&self) -> LLMConfigView {
        LLMConfigView {
            api_key: self.api_key@,
            base_url: self.base_url@,
            model: self.model@,
            temperature: self.temperature,
            system_prompt: self.system_prompt@,
            result_prompt: self.result_prompt@,
        }
    }
}

/// One algorithm: a named detection task with its own prompt. Only a
/// definition with `activate` set is eligible for an agent.
#[derive(Clone, Debug, PartialEq, Eq)]
pub struct AlgorithmConfig {
    pub id: String,
    pub name: String,
    pub prompt: String,
    pub activate: bool,
}

/// The mathematical value of an [`AlgorithmConfig`].
pub struct AlgorithmView {
    pub id: Seq<char>,
    pub name: Seq<char>,
    pub prompt: Seq<char>,
    pub activate: bool,
}

impl View for AlgorithmConfig {
    type V = AlgorithmView;

    open spec fn view(&self) -> AlgorithmView {
        AlgorithmView {
            id: self.id@,
            name: self.name@,
            prompt: self.prompt@,
            activate: self.activate,
        }
    }
}

impl DeepView for AlgorithmConfig {
    type V = AlgorithmView;

    open spec fn deep_view(&self) -> AlgorithmView {
        self@
    }
}

/// What is needed to prompt the completion service for one algorithm. It
/// keeps no conversation and can be used for any number of images.
#[derive(Clone, Debug, PartialEq, Eq)]
pub struct PromptAgent {
    pub api_key: String,
    pub base_url: String,
    pub model: String,
    pub temperature: Temperature,
    /// The instruction stack. Later instructions refine earlier ones.
    pub instructions: Vec<String>,
}

/// The mathematical value of a [`PromptAgent`].
pub struct PromptAgentView {
    pub api_key: Seq<char>,
    pub base_url: Seq<char>,
    pub model: Seq<char>,
    pub temperature: Temperature,
    pub instructions: Seq<Seq<char>>,
}

impl View for PromptAgent {
    type V = PromptAgentView;

    open spec fn view(&self) -> PromptAgentView {
        PromptAgentView {
            api_key: self.api_key@,
            base_url: self.base_url@,
            model: self.model@,
            temperature: self.temperature,
            instructions: self.instructions.deep_view(),
        }
    }
}

impl DeepView for PromptAgent {
    type V = PromptAgentView;

    open spec fn deep_view(&self) -> PromptAgentView {
        self@
    }
}

/// The media type that an image is declared to have.
#[derive(Clone, Copy, Debug, PartialEq, Eq, Structural)]
pub enum ImageMediaType {
    JPEG,
    PNG,
    GIF,
    WEBP,
    HEIC,
    HEIF,
    SVG,
}

/// How the data of an image is written down.
#[derive(Clone, Copy, Debug, PartialEq, Eq, Structural)]
pub enum ContentFormat {
    Base64,
    String,
}

/// One image as it is submitted to the completion service.
#[derive(Clone, Debug, PartialEq, Eq)]
pub struct ImagePayload {
    pub data: String,
    pub media_type: Option<ImageMediaType>,
    pub format: Option<ContentFormat>,
}

/// The mathematical value of an [`ImagePayload`].
pub struct ImagePayloadView {
    pub data: Seq<char>,
    pub media_type: Option<ImageMediaType>,
    pub format: Option<ContentFormat>,
}

impl View for ImagePayload {
    type V = ImagePayloadView;

    open spec fn view(&self) -> ImagePayloadView {
        ImagePayloadView { data: self.data@, media_type: self.media_type, format: self.format }
    }
}

/// What precedes the base64 text in the data URI of an image. The media
/// type is always JPEG: the bytes are not inspected.
pub const DATA_URI_PREFIX: &'static str = "data:image/jpeg;base64,";

/// Whether `algorithm` is the active definition of the name `name`.
pub open spec fn defines(algorithm: AlgorithmView, name: Seq<char>) -> bool {
    algorithm.activate && algorithm.name == name
}

/// Whether some active definition in `algorithms` has the name `name`.
pub open spec fn is_active(algorithms: Seq<AlgorithmView>, name: Seq<char>) -> bool {
    exists|i: int| 0 <= i < algorithms.len() && defines(#[trigger] algorithms[i], name)
}

/// The position of the first active definition of `name` in `algorithms`.
pub open spec fn first_active(algorithms: Seq<AlgorithmView>, name: Seq<char>) -> Option<int>
    decreases algorithms.len(),
{
    if algorithms.len() == 0 {
        None
    } else if defines(algorithms[0], name) {
        Some(0)
    } else {
        match first_active(algorithms.drop_first(), name) {
            Some(i) => Some(i + 1),
            None => None,
        }
    }
}

/// Whether no two active definitions in `algorithms` share a name.
pub open spec fn active_names_unique(algorithms: Seq<AlgorithmView>) -> bool {
    forall|i: int, j: int|
        0 <= i < algorithms.len() && 0 <= j < algorithms.len() && (#[trigger] algorithms[i]).activate
            && (#[trigger] algorithms[j]).activate && algorithms[i].name == algorithms[j].name
            ==> i == j
}

/// The instruction stack of an agent: the global system prompt, then the
/// prompt of the algorithm, then the global instructions on the format of
/// the result.
pub open spec fn instruction_stack(config: LLMConfigView, algorithm: AlgorithmView) -> Seq<
    Seq<char>,
> {
    seq![config.system_prompt, algorithm.prompt, config.result_prompt]
}

/// The agent that `config` and `algorithm` compose.
pub open spec fn composed_agent(config: LLMConfigView, algorithm: AlgorithmView) -> PromptAgentView {
    PromptAgentView {
        api_key: config.api_key,
        base_url: config.base_url,
        model: config.model,
        temperature: config.temperature,
        instructions: instruction_stack(config, algorithm),
    }
}

/// The agent for the name `name`: composed from the first active definition
/// of that name, and absent where there is none.
pub open spec fn agent_for(
    config: LLMConfigView,
    algorithms: Seq<AlgorithmView>,
    name: Seq<char>,
) -> Option<PromptAgentView> {
    match first_active(algorithms, name) {
        Some(i) => Some(composed_agent(config, algorithms[i])),
        None => None,
    }
}

/// The data URI of a JPEG image whose base64 text is `encoded`.
pub open spec fn data_uri(encoded: Seq<char>) -> Seq<char> {
    DATA_URI_PREFIX@ + encoded
}

/// The payload that submits the base64 text `encoded` as a JPEG image.
pub open spec fn jpeg_payload(encoded: Seq<char>) -> ImagePayloadView {
    ImagePayloadView {
        data: data_uri(encoded),
        media_type: Some(ImageMediaType::JPEG),
        format: Some(ContentFormat::Base64),
    }
}

/// `first_active` finds the least position that defines `name`: it is
/// within the list, defines the name, and nothing before it does. It finds
/// none exactly where no position defines the name.
pub proof fn lemma_first_active(algorithms: Seq<AlgorithmView>, name: Seq<char>)
    ensures
        match first_active(algorithms, name) {
            Some(i) => {
                &&& 0 <= i < algorithms.len()
                &&& defines(algorithms[i], name)
                &&& forall|j: int| 0 <= j < i ==> !defines(#[trigger] algorithms[j], name)
            },
            None => forall|j: int|
                0 <= j < algorithms.len() ==> !defines(#[trigger] algorithms[j], name),
        },
        first_active(algorithms, name) is Some <==> is_active(algorithms, name),
    decreases algorithms.len(),
{
    if algorithms.len() == 0 {
    } else if defines(algorithms[0], name) {
    } else {
        let rest = algorithms.drop_first();
        lemma_first_active(rest, name);
        assert(forall|j: int| 0 <= j < rest.len() ==> rest[j] == algorithms[j + 1]);
        match first_active(rest, name) {
            Some(i) => {
                assert forall|j: int| 0 <= j < i + 1 implies !defines(
                    #[trigger] algorithms[j],
                    name,
                ) by {
                    if j > 0 {
                        assert(rest[j - 1] == algorithms[j]);
                    }
                }
            },
            None => {
                assert forall|j: int| 0 <= j < algorithms.len() implies !defines(
                    #[trigger] algorithms[j],
                    name,
                ) by {
                    if j > 0 {
                        assert(rest[j - 1] == algorithms[j]);
                    }
                }
            },
        }
    }
}

/// The least position that defines `name` is the one that `first_active`
/// gives.
pub proof fn lemma_first_active_is(algorithms: Seq<AlgorithmView>, name: Seq<char>, i: int)
    requires
        0 <= i < algorithms.len(),
        defines(algorithms[i], name),
        forall|j: int| 0 <= j < i ==> !defines(#[trigger] algorithms[j], name),
    ensures
        first_active(algorithms, name) == Some(i),
{
    lemma_first_active(algorithms, name);
}

impl AlgorithmConfig {
    /// Copies the definition.
    pub fn duplicate(&self) -> (copy: AlgorithmConfig)
        ensures
            copy@ == self@,
    {
        AlgorithmConfig {
            id: copy_string(&self.id),
            name: copy_string(&self.name),
            prompt: copy_string(&self.prompt),
            activate: self.activate,
        }
    }
}

/// Composes the agent of one algorithm definition.
pub fn compose_agent(config: &LLMConfig, algorithm: &AlgorithmConfig) -> (agent: PromptAgent)
    ensures
        agent@ == composed_agent(config@, algorithm@),
{
    let mut instructions: Vec<String> = Vec::new();
    instructions.push(copy_string(&config.system_prompt));
    instructions.push(copy_string(&algorithm.prompt));
    instructions.push(copy_string(&config.result_prompt));
    assert(instructions.deep_view() =~= instruction_stack(config@, algorithm@));
    PromptAgent {
        api_key: copy_string(&config.api_key),
        base_url: copy_string(&config.base_url),
        model: copy_string(&config.model),
        temperature: config.temperature,
        instructions,
    }
}

/// Finds the first active definition of `name`.
pub fn find_active(algorithms: &Vec<AlgorithmConfig>, name: &str) -> (found: Option<usize>)
    ensures
        match found {
            Some(i) => first_active(algorithms.deep_view(), name@) == Some(i as int),
            None => first_active(algorithms.deep_view(), name@) is None,
        },
{
    let wanted = name.to_owned();
    let mut i: usize = 0;
    while i < algorithms.len()
        invariant
            i <= algorithms.len(),
            wanted@ == name@,
            forall|j: int| 0 <= j < i ==> !defines(#[trigger] algorithms.deep_view()[j], name@),
        decreases algorithms.len() - i,
    {
        if algorithms[i].activate && algorithms[i].name == wanted {
            proof {
                lemma_first_active_is(algorithms.deep_view(), name@, i as int);
            }
            return Some(i);
        }
        i = i + 1;
    }
    proof {
        lemma_first_active(algorithms.deep_view(), name@);
    }
    None
}

/// Whether `built` is what `expected` says: an agent of the expected value,
/// or `AlgorithmNotFound` where none is expected.
pub open spec fn agent_is(
    built: Result<PromptAgent, InferError>,
    expected: Option<PromptAgentView>,
) -> bool {
    match built {
        Ok(agent) => expected == Some(agent@),
        Err(e) => expected is None && e == InferError::AlgorithmNotFound,
    }
}

/// Builds the agent for `name` from the first active definition of that
/// name.
///
/// Fails with `AlgorithmNotFound`, and only so, where no active definition
/// has that name.
pub fn build_agent_from(config: &LLMConfig, algorithms: &Vec<AlgorithmConfig>, name: &str) -> (built:
    Result<PromptAgent, InferError>)
    ensures
        agent_is(built, agent_for(config@, algorithms.deep_view(), name@)),
        built is Ok <==> is_active(algorithms.deep_view(), name@),
{
    proof {
        lemma_first_active(algorithms.deep_view(), name@);
    }
    match find_active(algorithms, name) {
        Some(i) => Ok(compose_agent(config, &algorithms[i])),
        None => Err(InferError::AlgorithmNotFound),
    }
}

/// Whether the base64 text of `len` bytes has a length that can be held.
pub fn can_encode(len: usize) -> (fits: bool)
    ensures
        fits == base64_fits(len as nat),
{
    match (len / 3).checked_mul(4) {
        Some(whole) => len % 3 == 0 || whole.checked_add(4).is_some(),
        None => false,
    }
}

/// Writes the data URI of a JPEG image whose base64 text is `encoded`.
pub fn jpeg_data_uri(encoded: &str) -> (uri: String)
    ensures
        uri@ == data_uri(encoded@),
{
    let mut uri = DATA_URI_PREFIX.to_owned();
    uri.append(encoded);
    uri
}

/// Wraps the base64 text of an image as a JPEG payload.
pub fn jpeg_image(encoded: &str) -> (image: ImagePayload)
    ensures
        image@ == jpeg_payload(encoded@),
{
    ImagePayload {
        data: jpeg_data_uri(encoded),
        media_type: Some(ImageMediaType::JPEG),
        format: Some(ContentFormat::Base64),
    }
}

/// The loaded configuration: the settings of the model and the algorithm
/// definitions. It is built once and only read afterwards.
#[derive(Clone, Debug, PartialEq, Eq)]
pub struct LLM {
    pub config: LLMConfig,
    pub algorithms: Vec<AlgorithmConfig>,
}

impl LLM {
    /// Puts the parsed settings and definitions together.
    pub fn new(config: LLMConfig, algorithms: Vec<AlgorithmConfig>) -> (llm: LLM)
        ensures
            llm.config == config,
            llm.algorithms == algorithms,
    {
        LLM { config, algorithms }
    }

    /// Whether `algorithm_name` is the name of an active definition.
    pub fn check_algorithm(&self, algorithm_name: &str) -> (defined: bool)
        ensures
            defined == is_active(self.algorithms.deep_view(), algorithm_name@),
    {
        proof {
            lemma_first_active(self.algorithms.deep_view(), algorithm_name@);
        }
        find_active(&self.algorithms, algorithm_name).is_some()
    }

    /// Builds the agent of the algorithm named `algorithm_name`.
    ///
    /// Fails with `AlgorithmNotFound`, and only so, where no active
    /// definition has that name. Else the agent carries the endpoint, the
    /// credential, the model and the temperature of the configuration, and
    /// the three instructions in their fixed order.
    pub fn build_agent(&self, algorithm_name: &str) -> (built: Result<PromptAgent, InferError>)
        ensures
            agent_is(built, agent_for(self.config@, self.algorithms.deep_view(), algorithm_name@)),
            built is Ok <==> is_active(self.algorithms.deep_view(), algorithm_name@),
    {
        build_agent_from(&self.config, &self.algorithms, algorithm_name)
    }

    /// Composes the one-shot prompt for an image: its bytes in base64, as a
    /// data URI of a JPEG.
    ///
    /// Fails with `ImageReadError`, and only so, where the image is so large
    /// that the length of its base64 text cannot be held.
    pub fn chat(&self, image_bytes: &[u8]) -> (composed: Result<ImagePayload, InferError>)
        ensures
            match composed {
                Ok(image) => base64_fits(image_bytes@.len()) && image@ == jpeg_payload(
                    base64_standard(image_bytes@),
                ),
                Err(e) => !base64_fits(image_bytes@.len()) && e == InferError::ImageReadError,
            },
    {
        if !can_encode(image_bytes.len()) {
            return Err(InferError::ImageReadError);
        }
        let encoded = base64_encode(image_bytes);
        Ok(jpeg_image(encoded.as_str()))
    }
}

/// The instruction stack of a built agent is the system prompt, the prompt
/// of an active definition of the name and the result prompt, in this
/// order, wherever the definition stands in the list.
pub proof fn lemma_instruction_order(
    config: LLMConfigView,
    algorithms: Seq<AlgorithmView>,
    name: Seq<char>,
)
    requires
        is_active(algorithms, name),
    ensures
        agent_for(config, algorithms, name) matches Some(agent) && {
            &&& agent.instructions.len() == 3
            &&& agent.instructions[0] == config.system_prompt
            &&& exists|i: int|
                0 <= i < algorithms.len() && defines(#[trigger] algorithms[i], name)
                    && agent.instructions[1] == algorithms[i].prompt
            &&& agent.instructions[2] == config.result_prompt
        },
{
    lemma_first_active(algorithms, name);
    let i = first_active(algorithms, name)->0;
    assert(defines(algorithms[i], name));
}

/// Where no two active definitions share a name, every list that holds the
/// same definitions, in whatever order, gives the same agent for every
/// name.
pub proof fn lemma_agent_ignores_order(
    config: LLMConfigView,
    first: Seq<AlgorithmView>,
    second: Seq<AlgorithmView>,
    name: Seq<char>,
)
    requires
        first.to_multiset() == second.to_multiset(),
        active_names_unique(first),
    ensures
        agent_for(config, first, name) == agent_for(config, second, name),
{
    broadcast use vstd::seq_lib::group_to_multiset_ensures;

    lemma_first_active(first, name);
    lemma_first_active(second, name);
    match first_active(first, name) {
        Some(i) => {
            assert(first.to_multiset().count(first[i]) > 0);
            assert(second.contains(first[i]));
            let k = choose|k: int| 0 <= k < second.len() && second[k] == first[i];
            assert(defines(second[k], name));
            let m = first_active(second, name)->0;
            assert(second.to_multiset().count(second[m]) > 0);
            assert(first.contains(second[m]));
            let n = choose|n: int| 0 <= n < first.len() && first[n] == second[m];
            assert(defines(first[n], name));
            assert(n == i);
        },
        None => {
            if first_active(second, name) is Some {
                let m = first_active(second, name)->0;
                assert(second.to_multiset().count(second[m]) > 0);
                assert(first.contains(second[m]));
                let n = choose|n: int| 0 <= n < first.len() && first[n] == second[m];
                assert(defines(first[n], name));
            }
        },
    }
}

} // verus!

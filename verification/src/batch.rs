//! The plan of a batch run.
//!
//! A run goes through the buckets in order. A bucket whose name is not that
//! of an active algorithm is skipped entirely. For every other bucket one
//! agent is built, and each image of the bucket is submitted to the
//! completion service once, one after the other, through that agent; each
//! answer is recorded. The plan says which agents and which images these
//! are. Submitting and recording is left to the caller.

use vstd::prelude::*;
use crate::file_op::{ImageBucket, ImageBucketView};
use crate::text::{copy_string, copy_strings};
use crate::llm::{
    agent_for,
    is_active,
    lemma_first_active,
    AlgorithmView,
    LLMConfigView,
    PromptAgent,
    PromptAgentView,
    LLM,
};

verus! {

/// The work for one bucket: the agent of its algorithm and the images to
/// submit through it, in order.
#[derive(Clone, Debug, PartialEq, Eq)]
pub struct BucketJob {
    pub algorithm: String,
    pub agent: PromptAgent,
    pub images: Vec<String>,
}

/// The mathematical value of a [`BucketJob`].
pub struct BucketJobView {
    pub algorithm: Seq<char>,
    pub agent: PromptAgentView,
    pub images: Seq<Seq<char>>,
}

impl View for BucketJob {
    type V = BucketJobView;

    open spec fn view(&self) -> BucketJobView {
        BucketJobView {
            algorithm: self.algorithm@,
            agent: self.agent@,
            images: self.images.deep_view(),
        }
    }
}

impl DeepView for BucketJob {
    type V = BucketJobView;

    open spec fn deep_view(&self) -> BucketJobView {
        self@
    }
}

/// The job of one bucket, absent where no active algorithm has the name of
/// the bucket.
pub open spec fn job_of(
    config: LLMConfigView,
    algorithms: Seq<AlgorithmView>,
    bucket: ImageBucketView,
) -> Option<BucketJobView> {
    match agent_for(config, algorithms, bucket.algorithm_name) {
        Some(agent) => Some(
            BucketJobView { algorithm: bucket.algorithm_name, agent, images: bucket.image_paths },
        ),
        None => None,
    }
}

/// The jobs of a run over `buckets`, in the order of the buckets.
pub open spec fn planned(
    config: LLMConfigView,
    algorithms: Seq<AlgorithmView>,
    buckets: Seq<ImageBucketView>,
) -> Seq<BucketJobView> {
    buckets.filter_map(|bucket: ImageBucketView| job_of(config, algorithms, bucket))
}

/// The images that `jobs` submit to the completion service, in order: each
/// image of each job once.
pub open spec fn submitted(jobs: Seq<BucketJobView>) -> Seq<Seq<char>> {
    jobs.map_values(|job: BucketJobView| job.images).flatten()
}

/// The number of calls of the completion service that `jobs` make: one for
/// each submitted image. As many results are recorded.
pub open spec fn completion_calls(jobs: Seq<BucketJobView>) -> nat {
    submitted(jobs).len()
}

/// Plans a run over `image_list`: one job for each bucket whose name is
/// that of an active algorithm, with the agent of that algorithm and all
/// images of the bucket.
pub fn plan_batch(llm: &LLM, image_list: &Vec<ImageBucket>) -> (jobs: Vec<BucketJob>)
    ensures
        jobs.deep_view() == planned(llm.config@, llm.algorithms.deep_view(), image_list.deep_view()),
{
    let mut jobs: Vec<BucketJob> = Vec::new();
    let mut i: usize = 0;
    assert(jobs.deep_view() =~= planned(
        llm.config@,
        llm.algorithms.deep_view(),
        image_list.deep_view().take(0),
    ));
    while i < image_list.len()
        invariant
            i <= image_list.len(),
            jobs.deep_view() == planned(
                llm.config@,
                llm.algorithms.deep_view(),
                image_list.deep_view().take(i as int),
            ),
        decreases image_list.len() - i,
    {
        proof {
            image_list.deep_view().lemma_filter_map_take_succ(
                |bucket: ImageBucketView| job_of(llm.config@, llm.algorithms.deep_view(), bucket),
                i as int,
            );
            lemma_first_active(llm.algorithms.deep_view(), image_list@[i as int].algorithm_name@);
        }
        let bucket = &image_list[i];
        let ghost before = jobs.deep_view();
        match llm.build_agent(bucket.algorithm_name.as_str()) {
            Ok(agent) => {
                let job = BucketJob {
                    algorithm: copy_string(&bucket.algorithm_name),
                    agent,
                    images: copy_strings(&bucket.image_paths),
                };
                assert(Some(job@) == job_of(llm.config@, llm.algorithms.deep_view(), bucket@));
                jobs.push(job);
                assert(jobs.deep_view() =~= before + seq![job@]);
            },
            Err(_) => {
                assert(before + Seq::<BucketJobView>::empty() =~= before);
            },
        }
        i = i + 1;
    }
    assert(image_list.deep_view().take(i as int) =~= image_list.deep_view());
    jobs
}

/// Every bucket contributes to the plan by itself: the plan of two runs of
/// buckets, one after the other, is the plan of the first followed by the
/// plan of the second.
pub proof fn lemma_planned_concat(
    config: LLMConfigView,
    algorithms: Seq<AlgorithmView>,
    first: Seq<ImageBucketView>,
    second: Seq<ImageBucketView>,
)
    ensures
        planned(config, algorithms, first + second) == planned(config, algorithms, first) + planned(
            config,
            algorithms,
            second,
        ),
    decreases second.len(),
{
    if second.len() == 0 {
        assert(first + second =~= first);
        assert(planned(config, algorithms, first) + planned(config, algorithms, second)
            =~= planned(config, algorithms, first));
    } else {
        lemma_planned_concat(config, algorithms, first, second.drop_last());
        assert((first + second).drop_last() =~= first + second.drop_last());
        assert((first + second).last() == second.last());
        match job_of(config, algorithms, second.last()) {
            Some(job) => {
                assert((planned(config, algorithms, first) + planned(
                    config,
                    algorithms,
                    second.drop_last(),
                )) + seq![job] =~= planned(config, algorithms, first) + (planned(
                    config,
                    algorithms,
                    second.drop_last(),
                ) + seq![job]));
            },
            None => {},
        }
    }
}

/// Over two runs of buckets, one after the other, the completion service
/// is called for the images of the first and then for those of the second,
/// as often as over the first and over the second together.
pub proof fn lemma_calls_add_up(
    config: LLMConfigView,
    algorithms: Seq<AlgorithmView>,
    first: Seq<ImageBucketView>,
    second: Seq<ImageBucketView>,
)
    ensures
        submitted(planned(config, algorithms, first + second)) == submitted(
            planned(config, algorithms, first),
        ) + submitted(planned(config, algorithms, second)),
        completion_calls(planned(config, algorithms, first + second)) == completion_calls(
            planned(config, algorithms, first),
        ) + completion_calls(planned(config, algorithms, second)),
{
    lemma_planned_concat(config, algorithms, first, second);
    let one = planned(config, algorithms, first);
    let two = planned(config, algorithms, second);
    let images_of = |job: BucketJobView| job.images;
    assert((one + two).map_values(images_of) =~= one.map_values(images_of) + two.map_values(
        images_of,
    ));
    vstd::seq_lib::lemma_flatten_concat(one.map_values(images_of), two.map_values(images_of));
}

/// A bucket whose name is that of an active algorithm has exactly one job:
/// one agent is built for it, the agent of that algorithm, and the
/// completion service is called once for each of its images, in their
/// order.
pub proof fn lemma_active_bucket_has_one_job(
    config: LLMConfigView,
    algorithms: Seq<AlgorithmView>,
    bucket: ImageBucketView,
)
    requires
        is_active(algorithms, bucket.algorithm_name),
    ensures
        planned(config, algorithms, seq![bucket]).len() == 1,
        Some(planned(config, algorithms, seq![bucket])[0].agent) == agent_for(
            config,
            algorithms,
            bucket.algorithm_name,
        ),
        submitted(planned(config, algorithms, seq![bucket])) == bucket.image_paths,
        completion_calls(planned(config, algorithms, seq![bucket])) == bucket.image_paths.len(),
{
    lemma_first_active(algorithms, bucket.algorithm_name);
    Seq::lemma_filter_map_singleton(
        bucket,
        |bucket: ImageBucketView| job_of(config, algorithms, bucket),
    );
    let jobs = planned(config, algorithms, seq![bucket]);
    jobs.map_values(|job: BucketJobView| job.images).lemma_flatten_one_element();
}

/// A bucket whose name is not that of an active algorithm has no job: no
/// agent is built for it, the completion service is not called and nothing
/// is recorded.
pub proof fn lemma_inactive_bucket_has_no_job(
    config: LLMConfigView,
    algorithms: Seq<AlgorithmView>,
    bucket: ImageBucketView,
)
    requires
        !is_active(algorithms, bucket.algorithm_name),
    ensures
        planned(config, algorithms, seq![bucket]).len() == 0,
        completion_calls(planned(config, algorithms, seq![bucket])) == 0,
{
    lemma_first_active(algorithms, bucket.algorithm_name);
    Seq::lemma_filter_map_singleton(
        bucket,
        |bucket: ImageBucketView| job_of(config, algorithms, bucket),
    );
}

} // verus!

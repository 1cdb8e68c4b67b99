//! The container commands of a deployment, and what their outcomes mean.
use crate::text::{
    begins, contains, has_text, lines, lines_of, lower, lower_char, no_texts, push_text, same_text,
    starts_with, strip_prefix, texts, trim, trimmed, without_prefix,
};
use vstd::prelude::*;

verus! {

/// The name of the bot's container.
pub const HOUSE_CHATBOT_CONTAINER: &'static str = "house-chatbot";

/// The image of the newest build.
pub const LATEST_IMAGE: &'static str = "ghcr.io/bushshrub/housebot:latest";

/// What the image of a commit's build begins with.
pub const SHA_IMAGE_PREFIX: &'static str = "ghcr.io/bushshrub/housebot:sha-";

/// What an image named by its digest begins with.
pub const DIGEST_IMAGE_PREFIX: &'static str = "ghcr.io/bushshrub/housebot@sha256:";

/// The steps of a deployment.
#[derive(Clone, Copy, Debug, PartialEq, Eq, Structural)]
pub enum DeploymentStage {
    PullHousebotImage,
    RemovePreviousContainer,
    StartRequestedImage,
    CheckContainerState,
}

/// What is shown while a step runs.
pub open spec fn progress_text(stage: DeploymentStage) -> Seq<char> {
    match stage {
        DeploymentStage::PullHousebotImage => "⬇️ Pulling housebot image…"@,
        DeploymentStage::RemovePreviousContainer => "🛑 Removing the previous housebot container…"@,
        DeploymentStage::StartRequestedImage => "🚀 Starting the requested housebot image…"@,
        DeploymentStage::CheckContainerState => "🩺 Checking container state…"@,
    }
}

/// The name of a step in logs and errors.
pub open spec fn stage_name(stage: DeploymentStage) -> Seq<char> {
    match stage {
        DeploymentStage::PullHousebotImage => "pull_housebot_image"@,
        DeploymentStage::RemovePreviousContainer => "remove_previous_container"@,
        DeploymentStage::StartRequestedImage => "start_requested_image"@,
        DeploymentStage::CheckContainerState => "check_container_state"@,
    }
}

impl DeploymentStage {
    /// What is shown while the step runs.
    pub fn progress_message(self) -> (r: &'static str)
        ensures
            r@ == progress_text(self),
    {
        match self {
            Self::PullHousebotImage => "⬇️ Pulling housebot image…",
            Self::RemovePreviousContainer => "🛑 Removing the previous housebot container…",
            Self::StartRequestedImage => "🚀 Starting the requested housebot image…",
            Self::CheckContainerState => "🩺 Checking container state…",
        }
    }

    /// The name of the step in logs and errors.
    pub fn name(self) -> (r: &'static str)
        ensures
            r@ == stage_name(self),
    {
        match self {
            Self::PullHousebotImage => "pull_housebot_image",
            Self::RemovePreviousContainer => "remove_previous_container",
            Self::StartRequestedImage => "start_requested_image",
            Self::CheckContainerState => "check_container_state",
        }
    }

    /// Is this the step that starts the container?
    pub fn is_start(self) -> (r: bool)
        ensures
            r <==> self == DeploymentStage::StartRequestedImage,
    {
        self == Self::StartRequestedImage
    }

    /// Is this the step that checks the container?
    pub fn is_health_check(self) -> (r: bool)
        ensures
            r <==> self == DeploymentStage::CheckContainerState,
    {
        self == Self::CheckContainerState
    }
}

/// What is shown while a step runs.
pub fn deploy_progress(stage: DeploymentStage) -> (r: &'static str)
    ensures
        r@ == progress_text(stage),
{
    stage.progress_message()
}

/// One step: its arguments to `docker`.
#[derive(Debug, PartialEq, Eq)]
pub struct DeploymentCommand {
    pub stage: DeploymentStage,
    pub args: Vec<String>,
}

impl DeploymentCommand {
    /// A step with its arguments.
    pub fn new(stage: DeploymentStage, args: Vec<String>) -> (r: Self)
        ensures
            r.stage == stage,
            r.args == args,
    {
        Self { stage, args }
    }

    /// The arguments as slices.
    pub fn args(&self) -> (r: Vec<&str>)
        ensures
            r@.map_values(|s: &str| s@) == texts(self.args@),
    {
        let mut r: Vec<&str> = Vec::new();
        let mut i: usize = 0;
        while i < self.args.len()
            invariant
                i <= self.args@.len(),
                r@.len() == i,
                forall|j: int| 0 <= j < i ==> #[trigger] r@[j]@ == self.args@[j]@,
            decreases self.args.len() - i,
        {
            r.push(self.args[i].as_str());
            i += 1;
        }
        proof {
            assert(r@.map_values(|s: &str| s@) =~= texts(self.args@));
        }
        r
    }
}

/// Why no deployment can be planned.
#[derive(Clone, Copy, Debug, PartialEq, Eq, Structural)]
pub enum DeploymentError {
    InvalidSha,
    InvalidImage,
}

/// What an error says.
pub open spec fn error_text(error: DeploymentError) -> Seq<char> {
    match error {
        DeploymentError::InvalidSha => "SHA must contain 7 to 40 hexadecimal characters"@,
        DeploymentError::InvalidImage => "invalid housebot deployment image"@,
    }
}

impl DeploymentError {
    /// What the error says.
    pub fn message(self) -> (r: &'static str)
        ensures
            r@ == error_text(self),
            self == DeploymentError::InvalidSha ==> r@
                == "SHA must contain 7 to 40 hexadecimal characters"@,
            self == DeploymentError::InvalidImage ==> r@ == "invalid housebot deployment image"@,
    {
        match self {
            Self::InvalidSha => "SHA must contain 7 to 40 hexadecimal characters",
            Self::InvalidImage => "invalid housebot deployment image",
        }
    }
}

/// Is `c` a hexadecimal digit?
pub open spec fn is_hex(c: char) -> bool {
    '0' <= c <= '9' || 'a' <= c <= 'f' || 'A' <= c <= 'F'
}

/// Does `s` have the form of a commit hash: 7 to 40 hexadecimal digits?
pub open spec fn sha_form(s: Seq<char>) -> bool {
    7 <= s.len() <= 40 && forall|i: int| 0 <= i < s.len() ==> is_hex(#[trigger] s[i])
}

/// Does `sha` have the form of a commit hash: 7 to 40 hexadecimal digits?
pub fn valid_sha(sha: &str) -> (r: bool)
    ensures
        r == sha_form(sha@),
{
    let v = crate::text::chars_of(sha);
    if v.len() < 7 || v.len() > 40 {
        return false;
    }
    let mut i: usize = 0;
    while i < v.len()
        invariant
            v@ == sha@,
            i <= v@.len(),
            forall|j: int| 0 <= j < i ==> is_hex(#[trigger] v@[j]),
        decreases v.len() - i,
    {
        let c: char = v[i];
        if !(('0' <= c && c <= '9') || ('a' <= c && c <= 'f') || ('A' <= c && c <= 'F')) {
            proof {
                assert(!is_hex(v@[i as int]));
            }
            return false;
        }
        i += 1;
    }
    true
}

/// Does `image` name one build of the bot, by commit or by digest?
pub open spec fn housebot_image(image: Seq<char>) -> bool {
    begins(image, SHA_IMAGE_PREFIX@) || begins(image, DIGEST_IMAGE_PREFIX@)
}

/// Does `image` name one build of the bot, by commit or by digest?
pub fn valid_housebot_image(image: &str) -> (r: bool)
    ensures
        r == housebot_image(image@),
{
    starts_with(image, SHA_IMAGE_PREFIX) || starts_with(image, DIGEST_IMAGE_PREFIX)
}

/// The image of a commit's build; that of the newest build where none is named.
pub open spec fn requested_image(sha: Option<Seq<char>>) -> Seq<char> {
    match sha {
        Some(sha) => SHA_IMAGE_PREFIX@ + sha,
        None => LATEST_IMAGE@,
    }
}

/// The arguments that set the environment.
pub open spec fn env_args(environment: Seq<(String, String)>) -> Seq<Seq<char>>
    decreases environment.len(),
{
    if environment.len() == 0 {
        Seq::empty()
    } else {
        env_args(environment.drop_last()) + seq![
            "--env"@,
            environment.last().0@ + "="@ + environment.last().1@,
        ]
    }
}

/// The arguments that start `image`.
pub open spec fn run_args(
    image: Seq<char>,
    docker_network: Seq<char>,
    environment: Seq<(String, String)>,
) -> Seq<Seq<char>> {
    seq![
        "run"@,
        "--detach"@,
        "--name"@,
        HOUSE_CHATBOT_CONTAINER@,
        "--restart"@,
        "unless-stopped"@,
        "--network"@,
        docker_network,
    ] + env_args(environment) + seq!["--env"@, "DATA_DIR=/app/data"@, image]
}

/// The steps that replace the running container by one of `image`.
pub open spec fn plan_of(
    image: Seq<char>,
    docker_network: Seq<char>,
    environment: Seq<(String, String)>,
) -> Seq<(DeploymentStage, Seq<Seq<char>>)> {
    seq![
        (DeploymentStage::PullHousebotImage, seq!["pull"@, image]),
        (
            DeploymentStage::RemovePreviousContainer,
            seq!["rm"@, "--force"@, HOUSE_CHATBOT_CONTAINER@],
        ),
        (
            DeploymentStage::StartRequestedImage,
            run_args(image, docker_network, environment),
        ),
        (
            DeploymentStage::CheckContainerState,
            seq!["inspect"@, "--format={{.State.Running}}"@, HOUSE_CHATBOT_CONTAINER@],
        ),
    ]
}

/// The steps as stages and argument texts.
pub open spec fn steps(commands: Seq<DeploymentCommand>) -> Seq<(
    DeploymentStage,
    Seq<Seq<char>>,
)> {
    commands.map_values(|c: DeploymentCommand| (c.stage, texts(c.args@)))
}

/// A list of the given words.
fn words2(a: &str, b: &str) -> (r: Vec<String>)
    ensures
        texts(r@) == seq![a@, b@],
{
    let mut r = no_texts();
    push_text(&mut r, a);
    push_text(&mut r, b);
    r
}

/// A list of the given words.
fn words3(a: &str, b: &str, c: &str) -> (r: Vec<String>)
    ensures
        texts(r@) == seq![a@, b@, c@],
{
    let mut r = words2(a, b);
    push_text(&mut r, c);
    r
}

/// The arguments that start `image`.
fn run_command(image: &str, docker_network: &str, environment: &Vec<(String, String)>) -> (r: Vec<
    String,
>)
    ensures
        texts(r@) == run_args(image@, docker_network@, environment@),
{
    let mut run = words3("run", "--detach", "--name");
    push_text(&mut run, HOUSE_CHATBOT_CONTAINER);
    push_text(&mut run, "--restart");
    push_text(&mut run, "unless-stopped");
    push_text(&mut run, "--network");
    push_text(&mut run, docker_network);
    let ghost head = seq![
        "run"@,
        "--detach"@,
        "--name"@,
        HOUSE_CHATBOT_CONTAINER@,
        "--restart"@,
        "unless-stopped"@,
        "--network"@,
        docker_network@,
    ];
    proof {
        assert(texts(run@) =~= head);
        assert(environment@.take(0) =~= Seq::empty());
        assert(head + env_args(environment@.take(0)) =~= head);
    }
    let mut i: usize = 0;
    while i < environment.len()
        invariant
            i <= environment@.len(),
            texts(run@) == head + env_args(environment@.take(i as int)),
        decreases environment.len() - i,
    {
        let ghost before = texts(run@);
        let setting = environment[i].0.clone().concat("=").concat(environment[i].1.as_str());
        push_text(&mut run, "--env");
        push_text(&mut run, setting.as_str());
        proof {
            let t = environment@.take(i + 1);
            assert(t.drop_last() =~= environment@.take(i as int));
            assert(texts(run@) =~= before + seq!["--env"@, setting@]);
            assert(texts(run@) =~= head + env_args(t));
        }
        i += 1;
    }
    let ghost before = texts(run@);
    proof {
        assert(environment@.take(i as int) =~= environment@);
    }
    push_text(&mut run, "--env");
    push_text(&mut run, "DATA_DIR=/app/data");
    push_text(&mut run, image);
    proof {
        assert(texts(run@) =~= before + seq!["--env"@, "DATA_DIR=/app/data"@, image@]);
    }
    run
}

/// The steps that replace the running container by one of `image`, with the
/// given environment. Only images of the bot are accepted; that of the newest
/// build only where `allow_latest` says so.
pub fn container_commands_with_env(
    image: &str,
    docker_network: &str,
    environment: Vec<(String, String)>,
    allow_latest: bool,
) -> (r: Result<Vec<DeploymentCommand>, DeploymentError>)
    ensures
        r is Ok <==> housebot_image(image@) || (allow_latest && image@ == LATEST_IMAGE@),
        r matches Ok(commands) ==> steps(commands@) == plan_of(
            image@,
            docker_network@,
            environment@,
        ),
        r matches Err(error) ==> error == DeploymentError::InvalidImage,
{
    if !(valid_housebot_image(image) || (allow_latest && same_text(image, LATEST_IMAGE))) {
        return Err(DeploymentError::InvalidImage);
    }
    let run = run_command(image, docker_network, &environment);
    let mut commands: Vec<DeploymentCommand> = Vec::new();
    commands.push(
        DeploymentCommand::new(DeploymentStage::PullHousebotImage, words2("pull", image)),
    );
    commands.push(
        DeploymentCommand::new(
            DeploymentStage::RemovePreviousContainer,
            words3("rm", "--force", HOUSE_CHATBOT_CONTAINER),
        ),
    );
    commands.push(DeploymentCommand::new(DeploymentStage::StartRequestedImage, run));
    commands.push(
        DeploymentCommand::new(
            DeploymentStage::CheckContainerState,
            words3("inspect", "--format={{.State.Running}}", HOUSE_CHATBOT_CONTAINER),
        ),
    );
    proof {
        assert(steps(commands@) =~= plan_of(image@, docker_network@, environment@));
    }
    Ok(commands)
}

/// The steps of a rollback to `image`, without any environment settings.
pub fn container_commands(image: &str, docker_network: &str) -> (r: Result<
    Vec<DeploymentCommand>,
    DeploymentError,
>)
    ensures
        r is Ok <==> housebot_image(image@),
        r matches Ok(commands) ==> steps(commands@) == plan_of(
            image@,
            docker_network@,
            Seq::empty(),
        ),
        r matches Err(error) ==> error == DeploymentError::InvalidImage,
{
    container_commands_with_env(image, docker_network, Vec::new(), false)
}

/// The steps that deploy a commit's build, or the newest one, with the given
/// environment.
pub fn deploy_commands(
    sha: Option<&str>,
    docker_network: &str,
    environment: Vec<(String, String)>,
) -> (r: Result<Vec<DeploymentCommand>, DeploymentError>)
    ensures
        r is Ok <==> (sha matches Some(sha) ==> sha_form(sha@)),
        r matches Ok(commands) ==> steps(commands@) == plan_of(
            requested_image(crate::text::opt_str(sha)),
            docker_network@,
            environment@,
        ),
        r matches Err(error) ==> error == DeploymentError::InvalidSha,
{
    match sha {
        Some(sha) => {
            if !valid_sha(sha) {
                return Err(DeploymentError::InvalidSha);
            }
            let image = SHA_IMAGE_PREFIX.to_owned().concat(sha);
            proof {
                assert(image@.subrange(0, SHA_IMAGE_PREFIX@.len() as int) =~= SHA_IMAGE_PREFIX@);
            }
            container_commands_with_env(image.as_str(), docker_network, environment, true)
        },
        None => container_commands_with_env(LATEST_IMAGE, docker_network, environment, true),
    }
}

// ------------------------------------------------------- docker's answers

/// Does an error say that the container or image is not there?
pub open spec fn object_missing(error: Seq<char>) -> bool {
    has_text(error, "No such object"@) || has_text(error, "No such container"@)
}

/// Does an error say that the container or image is not there?
pub fn docker_object_missing(error: &str) -> (r: bool)
    ensures
        r == object_missing(error@),
{
    contains(error, "No such object") || contains(error, "No such container")
}

/// The words as texts.
pub open spec fn word_texts(words: Seq<&str>) -> Seq<Seq<char>> {
    words.map_values(|s: &str| s@)
}

/// Is a failed `docker` command to be taken as done: the removal of something
/// that is not there?
pub open spec fn failure_excused(args: Seq<Seq<char>>, stderr: Seq<char>) -> bool {
    args.len() > 0 && args[0] == "rm"@ && object_missing(stderr)
}

/// What a finished `docker` command gives: its trimmed output, or an error with
/// its trimmed error output. Removing what is not there is no error.
pub fn docker_outcome(args: &Vec<&str>, succeeded: bool, stdout: &str, stderr: &str) -> (r: Result<
    String,
    String,
>)
    ensures
        r is Ok <==> succeeded || failure_excused(word_texts(args@), stderr@),
        r matches Ok(output) ==> output@ == trimmed(stdout@),
        r matches Err(error) ==> error@ == "docker command failed: "@ + trimmed(stderr@),
{
    let missing = args.len() > 0 && same_text(args[0], "rm") && docker_object_missing(stderr);
    if !succeeded && !missing {
        return Err("docker command failed: ".to_owned().concat(trim(stderr)));
    }
    Ok(trim(stdout).to_owned())
}

/// Why the running commit is not known.
#[derive(Clone, Copy, Debug, PartialEq, Eq, Structural)]
pub enum RunningImageError {
    NoCommit,
    InvalidCommit,
}

/// What such an error says.
pub open spec fn running_image_error_text(error: RunningImageError) -> Seq<char> {
    match error {
        RunningImageError::NoCommit =>
        "running house-chatbot image does not contain a commit SHA"@,
        RunningImageError::InvalidCommit =>
        "running house-chatbot image contains an invalid commit SHA"@,
    }
}

impl RunningImageError {
    /// What the error says.
    pub fn message(self) -> (r: &'static str)
        ensures
            r@ == running_image_error_text(self),
            self == RunningImageError::NoCommit ==> r@
                == "running house-chatbot image does not contain a commit SHA"@,
            self == RunningImageError::InvalidCommit ==> r@
                == "running house-chatbot image contains an invalid commit SHA"@,
    {
        match self {
            Self::NoCommit => "running house-chatbot image does not contain a commit SHA",
            Self::InvalidCommit => "running house-chatbot image contains an invalid commit SHA",
        }
    }
}

/// The commit whose build `image` is.
pub fn running_sha(image: &str) -> (r: Result<String, RunningImageError>)
    ensures
        match (r, without_prefix(image@, SHA_IMAGE_PREFIX@)) {
            (Ok(sha), Some(rest)) => sha@ == rest && sha_form(rest),
            (Err(error), Some(rest)) => error == RunningImageError::InvalidCommit && !sha_form(
                rest,
            ),
            (Err(error), None) => error == RunningImageError::NoCommit,
            (Ok(_), None) => false,
        },
{
    match strip_prefix(image, SHA_IMAGE_PREFIX) {
        Some(sha) => {
            if valid_sha(sha) {
                Ok(sha.to_owned())
            } else {
                Err(RunningImageError::InvalidCommit)
            }
        },
        None => Err(RunningImageError::NoCommit),
    }
}

/// The image to roll back to, once the running container was inspected: the
/// image it reports, where that is one of the bot's; else the one known before.
pub fn checkpoint(inspected: Result<String, String>, previous: Option<String>) -> (r: Option<
    String,
>)
    ensures
        inspected matches Ok(image) && housebot_image(image@) ==> r == Some(inspected->Ok_0),
        !(inspected matches Ok(image) && housebot_image(image@)) ==> r == previous,
{
    match inspected {
        Ok(image) => {
            if valid_housebot_image(image.as_str()) {
                Some(image)
            } else {
                previous
            }
        },
        Err(_) => previous,
    }
}

/// The images that a cleanup keeps: the deployed one and the one before.
pub fn images_to_keep(sha: Option<&str>, previous: Option<&str>) -> (r: Vec<String>)
    ensures
        texts(r@) == seq![requested_image(crate::text::opt_str(sha))] + (match previous {
            Some(previous) => seq![previous@],
            None => Seq::empty(),
        }),
{
    let mut keep = no_texts();
    match sha {
        Some(sha) => {
            let main = SHA_IMAGE_PREFIX.to_owned().concat(sha);
            push_text(&mut keep, main.as_str());
        },
        None => {
            push_text(&mut keep, LATEST_IMAGE);
        },
    }
    match previous {
        Some(previous) => {
            push_text(&mut keep, previous);
        },
        None => {},
    }
    proof {
        match previous {
            Some(previous) => {
                assert(texts(keep@) =~= seq![requested_image(crate::text::opt_str(sha))] + seq![
                    previous@,
                ]);
            },
            None => {
                assert(texts(keep@) =~= seq![requested_image(crate::text::opt_str(sha))]
                    + Seq::empty());
            },
        }
    }
    keep
}

/// Is a listed image one that a cleanup removes: a tagged build of the bot that
/// is not kept?
pub open spec fn disposable(image: Seq<char>, keep: Seq<Seq<char>>) -> bool {
    (image == LATEST_IMAGE@ || begins(image, SHA_IMAGE_PREFIX@)) && !keep.contains(image)
}

/// The images that a cleanup removes, in the order they are listed in.
pub open spec fn disposable_images(listed: Seq<Seq<char>>, keep: Seq<Seq<char>>) -> Seq<Seq<char>>
    decreases listed.len(),
{
    if listed.len() == 0 {
        Seq::empty()
    } else if disposable(listed.last(), keep) {
        disposable_images(listed.drop_last(), keep).push(listed.last())
    } else {
        disposable_images(listed.drop_last(), keep)
    }
}

/// Is `word` in the list?
pub fn list_has(list: &Vec<String>, word: &str) -> (r: bool)
    ensures
        r == texts(list@).contains(word@),
{
    let mut i: usize = 0;
    while i < list.len()
        invariant
            i <= list@.len(),
            forall|j: int| 0 <= j < i ==> #[trigger] texts(list@)[j] != word@,
        decreases list.len() - i,
    {
        if same_text(list[i].as_str(), word) {
            proof {
                assert(texts(list@)[i as int] == word@);
            }
            return true;
        }
        i += 1;
    }
    false
}

/// The images that a cleanup removes, out of the listing that `docker` printed.
pub fn images_to_remove(listing: &str, keep: &Vec<String>) -> (r: Vec<String>)
    ensures
        texts(r@) == disposable_images(lines_of(listing@), texts(keep@)),
{
    let listed = lines(listing);
    let mut r = no_texts();
    let mut i: usize = 0;
    proof {
        assert(texts(listed@).take(0) =~= Seq::empty());
    }
    while i < listed.len()
        invariant
            i <= listed@.len(),
            texts(r@) == disposable_images(texts(listed@).take(i as int), texts(keep@)),
        decreases listed.len() - i,
    {
        let image = listed[i].as_str();
        proof {
            let t = texts(listed@).take(i + 1);
            assert(t.drop_last() =~= texts(listed@).take(i as int));
            assert(t.last() == image@);
        }
        if (same_text(image, LATEST_IMAGE) || starts_with(image, SHA_IMAGE_PREFIX)) && !list_has(
            keep,
            image,
        ) {
            push_text(&mut r, image);
        }
        i += 1;
    }
    proof {
        assert(texts(listed@).take(i as int) =~= texts(listed@));
    }
    r
}

// --------------------------------------------------------------------- laws

/// A plan has four steps, always in the same order, and names the same image
/// where it is pulled and where it is started.
pub proof fn law_plan_uses_one_image(
    image: Seq<char>,
    docker_network: Seq<char>,
    environment: Seq<(String, String)>,
)
    ensures
        ({
            let plan = plan_of(image, docker_network, environment);
            &&& plan.len() == 4
            &&& plan[0].0 == DeploymentStage::PullHousebotImage
            &&& plan[1].0 == DeploymentStage::RemovePreviousContainer
            &&& plan[2].0 == DeploymentStage::StartRequestedImage
            &&& plan[3].0 == DeploymentStage::CheckContainerState
            &&& plan[0].1.last() == image
            &&& plan[2].1.last() == image
            &&& plan[1].1.last() == HOUSE_CHATBOT_CONTAINER@
            &&& plan[2].1[3] == HOUSE_CHATBOT_CONTAINER@
            &&& plan[3].1.last() == HOUSE_CHATBOT_CONTAINER@
        }),
{
    let run = run_args(image, docker_network, environment);
    assert(run.last() == image);
}

/// The image of an accepted commit is one that a rollback accepts too, and its
/// tag is nothing but hexadecimal digits; the newest build's is not accepted.
pub proof fn law_deployed_commit_can_be_rolled_back_to(sha: Seq<char>)
    requires
        sha_form(sha),
    ensures
        housebot_image(requested_image(Some(sha))),
        without_prefix(requested_image(Some(sha)), SHA_IMAGE_PREFIX@) == Some(sha),
        !housebot_image(requested_image(None)),
{
    let image = SHA_IMAGE_PREFIX@ + sha;
    let n = SHA_IMAGE_PREFIX@.len() as int;
    assert(image.subrange(0, n) =~= SHA_IMAGE_PREFIX@);
    assert(image.skip(n) =~= sha);
    reveal_strlit("ghcr.io/bushshrub/housebot:latest");
    reveal_strlit("ghcr.io/bushshrub/housebot:sha-");
    reveal_strlit("ghcr.io/bushshrub/housebot@sha256:");
    let latest = LATEST_IMAGE@;
    if begins(latest, SHA_IMAGE_PREFIX@) {
        assert(latest.subrange(0, n)[27] == SHA_IMAGE_PREFIX@[27]);
        assert(false);
    }
    if begins(latest, DIGEST_IMAGE_PREFIX@) {
        assert(false);
    }
}

/// A cleanup never removes an image that it keeps, nor one that is not a tagged
/// build of the bot.
pub proof fn law_cleanup_spares_what_is_kept(
    listed: Seq<Seq<char>>,
    keep: Seq<Seq<char>>,
    image: Seq<char>,
)
    requires
        keep.contains(image) || !(image == LATEST_IMAGE@ || begins(image, SHA_IMAGE_PREFIX@)),
    ensures
        !disposable_images(listed, keep).contains(image),
    decreases listed.len(),
{
    if listed.len() > 0 {
        law_cleanup_spares_what_is_kept(listed.drop_last(), keep, image);
        let rest = disposable_images(listed.drop_last(), keep);
        let all = disposable_images(listed, keep);
        if all.contains(image) {
            let i = choose|i: int| 0 <= i < all.len() && all[i] == image;
            if i < rest.len() {
                assert(rest[i] == image);
            }
        }
    }
}

/// How many arguments set the environment, and which.
proof fn lemma_env_args(environment: Seq<(String, String)>, i: int)
    ensures
        env_args(environment).len() == 2 * environment.len(),
        0 <= i < environment.len() ==> env_args(environment)[2 * i] == "--env"@ && env_args(
            environment,
        )[2 * i + 1] == environment[i].0@ + "="@ + environment[i].1@,
    decreases environment.len(),
{
    if environment.len() > 0 {
        let rest = environment.drop_last();
        lemma_env_args(rest, i);
        let all = env_args(environment);
        assert(all.len() == 2 * environment.len());
        if 0 <= i < rest.len() {
            assert(all[2 * i] == env_args(rest)[2 * i]);
            assert(all[2 * i + 1] == env_args(rest)[2 * i + 1]);
        }
    }
}

/// A container is started in the background, under the bot's name, on the given
/// network, to be restarted unless it is stopped, with each setting as
/// `name=value`, in order, and from the given image.
pub proof fn law_containers_get_all_their_settings(
    image: Seq<char>,
    docker_network: Seq<char>,
    environment: Seq<(String, String)>,
    i: int,
)
    ensures
        ({
            let run = plan_of(image, docker_network, environment)[2].1;
            let n = 8 + 2 * (environment.len() as int);
            &&& run.len() == n + 3
            &&& run[0] == "run"@ && run[1] == "--detach"@
            &&& run[2] == "--name"@ && run[3] == "house-chatbot"@
            &&& run[4] == "--restart"@ && run[5] == "unless-stopped"@
            &&& run[6] == "--network"@ && run[7] == docker_network
            &&& 0 <= i < environment.len() ==> run[8 + 2 * i] == "--env"@ && run[9 + 2 * i]
                == environment[i].0@ + "="@ + environment[i].1@
            &&& run[n] == "--env"@ && run[n + 1] == "DATA_DIR=/app/data"@
            &&& run[n + 2] == image
        }),
{
    lemma_env_args(environment, i);
    let run = run_args(image, docker_network, environment);
    let args = env_args(environment);
    if 0 <= i < environment.len() {
        assert(run[8 + 2 * i] == args[2 * i]);
        assert(run[9 + 2 * i] == args[2 * i + 1]);
    }
}

/// The steps around the start: the image is pulled, the container of the bot is
/// removed whether it runs or not, and the new one is asked whether it runs.
pub proof fn law_plan_replaces_the_container(
    image: Seq<char>,
    docker_network: Seq<char>,
    environment: Seq<(String, String)>,
)
    ensures
        plan_of(image, docker_network, environment)[0].1 == seq!["pull"@, image],
        plan_of(image, docker_network, environment)[1].1 == seq![
            "rm"@,
            "--force"@,
            "house-chatbot"@,
        ],
        plan_of(image, docker_network, environment)[3].1 == seq![
            "inspect"@,
            "--format={{.State.Running}}"@,
            "house-chatbot"@,
        ],
{
}

/// A commit hash has 7 to 40 characters, each a decimal digit or a letter from `a`
/// to `f` in either case, and any such text is one.
pub proof fn law_hashes_are_hexadecimal(s: Seq<char>)
    ensures
        sha_form(s) <==> 7 <= s.len() <= 40 && forall|i: int|
            0 <= i < s.len() ==> {
                let c = #[trigger] s[i];
                ('0' <= c && c <= '9') || ('a' <= c && c <= 'f') || ('A' <= c && c <= 'F')
            },
        sha_form(s) <==> sha_form(lower(s)),
{
    assert forall|i: int| 0 <= i < s.len() implies is_hex(lower(s)[i]) == is_hex(
        #[trigger] s[i],
    ) by {
        assert(lower(s)[i] == lower_char(s[i]));
    }
    if sha_form(s) {
        assert forall|i: int| 0 <= i < s.len() implies is_hex(#[trigger] lower(s)[i]) by {
            assert(is_hex(s[i]));
        }
    }
    if sha_form(lower(s)) {
        assert forall|i: int| 0 <= i < s.len() implies is_hex(#[trigger] s[i]) by {
            assert(is_hex(lower(s)[i]));
        }
    }
}

/// The image of a commit's build is told by that commit and nothing else; without a
/// commit it is the newest one.
pub proof fn law_images_are_named_by_their_commit(a: Seq<char>, b: Seq<char>)
    ensures
        requested_image(Some(a)) == "ghcr.io/bushshrub/housebot:sha-"@ + a,
        requested_image(None) == "ghcr.io/bushshrub/housebot:latest"@,
        requested_image(Some(a)) == requested_image(Some(b)) ==> a == b,
{
    let prefix = SHA_IMAGE_PREFIX@;
    if prefix + a == prefix + b {
        assert((prefix + a).skip(prefix.len() as int) =~= a);
        assert((prefix + b).skip(prefix.len() as int) =~= b);
    }
}

/// An image is the bot's where it is named by commit or by digest in the bot's own
/// repository.
pub proof fn law_only_own_images_are_accepted(image: Seq<char>)
    ensures
        housebot_image(image) <==> begins(image, "ghcr.io/bushshrub/housebot:sha-"@) || begins(
            image,
            "ghcr.io/bushshrub/housebot@sha256:"@,
        ),
{
}

/// Only a removal is excused, and only where docker says that what is to be removed
/// is not there.
pub proof fn law_only_missing_removals_are_excused(args: Seq<Seq<char>>, stderr: Seq<char>)
    ensures
        failure_excused(args, stderr) <==> args.len() > 0 && args[0] == "rm"@ && (has_text(
            stderr,
            "No such object"@,
        ) || has_text(stderr, "No such container"@)),
{
}

/// A cleanup removes every listed build of the bot that is not kept, in the order
/// of the listing, and nothing else.
pub proof fn law_cleanup_removes_all_others(listed: Seq<Seq<char>>, keep: Seq<Seq<char>>)
    ensures
        disposable_images(listed, keep) == listed.filter(
            |image: Seq<char>|
                !keep.contains(image) && (image == "ghcr.io/bushshrub/housebot:latest"@ || begins(
                    image,
                    "ghcr.io/bushshrub/housebot:sha-"@,
                )),
        ),
    decreases listed.len(),
{
    reveal(Seq::filter);
    if listed.len() > 0 {
        law_cleanup_removes_all_others(listed.drop_last(), keep);
    }
}

/// Each step has a name and a line of its own.
pub proof fn law_steps_are_told_apart(stage: DeploymentStage)
    ensures
        stage == DeploymentStage::PullHousebotImage ==> stage_name(stage) == "pull_housebot_image"@
            && progress_text(stage) == "⬇️ Pulling housebot image…"@,
        stage == DeploymentStage::RemovePreviousContainer ==> stage_name(stage)
            == "remove_previous_container"@ && progress_text(stage)
            == "🛑 Removing the previous housebot container…"@,
        stage == DeploymentStage::StartRequestedImage ==> stage_name(stage)
            == "start_requested_image"@ && progress_text(stage)
            == "🚀 Starting the requested housebot image…"@,
        stage == DeploymentStage::CheckContainerState ==> stage_name(stage)
            == "check_container_state"@ && progress_text(stage) == "🩺 Checking container state…"@,
{
}

/// Steps are taken as their stages and arguments, in order, and words as texts.
pub proof fn law_steps_are_what_they_hold(
    commands: Seq<DeploymentCommand>,
    words: Seq<&str>,
    i: int,
)
    ensures
        steps(commands).len() == commands.len(),
        0 <= i < commands.len() ==> steps(commands)[i] == (
            commands[i].stage,
            texts(commands[i].args@),
        ),
        word_texts(words).len() == words.len(),
        0 <= i < words.len() ==> word_texts(words)[i] == words[i]@,
{
}

} // verus!

use vstd::prelude::*;

verus! {

/// The unit of work a caller asks for; each one runs the ones before it
/// when the runtime shows they are missing.
#[derive(Clone, Copy, PartialEq, Eq, Structural, Debug)]
pub enum Step {
    Build,
    Run,
    Init,
    Seed,
}

/// One action of a resolved plan.
#[derive(Clone, Copy, PartialEq, Eq, Structural, Debug)]
pub enum Action {
    /// Build the image from the local build context, tagged with the target name.
    BuildImage,
    /// Start a container from the target image with the fixed port mapping.
    LaunchContainer,
    /// Wait the fixed settle delay after a fresh launch.
    Settle,
    /// Open a connection to the database.
    Connect,
    /// Run the init batch.
    ExecuteInit,
    /// Run the seed batch.
    ExecuteSeed,
}

/// Seconds to wait after a fresh launch before connecting.
pub const SETTLE_SECONDS: u64 = 5;

/// An image as the runtime reports it.
#[derive(Clone, Debug)]
pub struct ImageDescriptor {
    pub id: String,
    pub repo_tags: Vec<String>,
}

/// A container as the runtime reports it.
#[derive(Clone, Debug)]
pub struct ContainerDescriptor {
    pub id: String,
    pub image: Option<String>,
}

pub open spec fn latest_suffix() -> Seq<char> {
    seq![':', 'l', 'a', 't', 'e', 's', 't']
}

/// An image matches the target when one of its tags is `<name>:latest`.
pub open spec fn image_matches(img: ImageDescriptor, name: Seq<char>) -> bool {
    exists|j: int| 0 <= j < img.repo_tags@.len() && #[trigger] img.repo_tags@[j]@ == name + latest_suffix()
}

pub open spec fn some_image_matches(images: Seq<ImageDescriptor>, name: Seq<char>) -> bool {
    exists|i: int| 0 <= i < images.len() && image_matches(#[trigger] images[i], name)
}

/// A container matches the target when it was started from the target image.
pub open spec fn container_matches(c: ContainerDescriptor, name: Seq<char>) -> bool {
    c.image is Some && c.image->0@ == name
}

pub open spec fn some_container_matches(containers: Seq<ContainerDescriptor>, name: Seq<char>) -> bool {
    exists|i: int| 0 <= i < containers.len() && container_matches(#[trigger] containers[i], name)
}

/// The launch chain of `Init` and `Seed` when no matching container runs.
pub open spec fn fresh_chain(image_present: bool) -> Seq<Action> {
    let launch = seq![Action::LaunchContainer, Action::Settle, Action::Connect, Action::ExecuteInit];
    if image_present {
        launch
    } else {
        seq![Action::BuildImage] + launch
    }
}

/// The actions a step resolves to, given whether a matching image exists
/// and whether a matching container is already running.
pub open spec fn plan(step: Step, image_present: bool, container_running: bool) -> Seq<Action> {
    match step {
        Step::Build => seq![Action::BuildImage],
        Step::Run => if image_present {
            seq![Action::LaunchContainer]
        } else {
            seq![Action::BuildImage, Action::LaunchContainer]
        },
        Step::Init => if container_running {
            seq![Action::Connect, Action::ExecuteInit]
        } else {
            fresh_chain(image_present)
        },
        Step::Seed => if container_running {
            seq![Action::Connect, Action::ExecuteInit, Action::ExecuteSeed]
        } else {
            fresh_chain(image_present).push(Action::ExecuteSeed)
        },
    }
}

/// Whether `tag` is `name` followed by `:latest`.
pub fn is_latest_tag(tag: &String, name: &String) -> (r: bool)
    ensures
        r == (tag@ == name@ + latest_suffix()),
{
    let expected = name.clone().concat(":latest");
    proof {
        reveal_strlit(":latest");
        assert(":latest"@ =~= latest_suffix());
    }
    *tag == expected
}

/// Whether one of the image's tags is `<name>:latest`.
pub fn image_has_tag(img: &ImageDescriptor, name: &String) -> (r: bool)
    ensures
        r == image_matches(*img, name@),
{
    let mut j: usize = 0;
    while j < img.repo_tags.len()
        invariant
            j <= img.repo_tags@.len(),
            forall|k: int| 0 <= k < j ==> #[trigger] img.repo_tags@[k]@ != name@ + latest_suffix(),
        decreases img.repo_tags@.len() - j,
    {
        if is_latest_tag(&img.repo_tags[j], name) {
            return true;
        }
        j = j + 1;
    }
    false
}

/// Whether any listed image carries the tag `<name>:latest`.
pub fn find_image(images: &Vec<ImageDescriptor>, name: &String) -> (r: bool)
    ensures
        r == some_image_matches(images@, name@),
{
    let mut i: usize = 0;
    while i < images.len()
        invariant
            i <= images@.len(),
            forall|k: int| 0 <= k < i ==> !image_matches(#[trigger] images@[k], name@),
        decreases images@.len() - i,
    {
        if image_has_tag(&images[i], name) {
            return true;
        }
        i = i + 1;
    }
    false
}

/// Whether any listed container was started from the image `name`.
pub fn find_container(containers: &Vec<ContainerDescriptor>, name: &String) -> (r: bool)
    ensures
        r == some_container_matches(containers@, name@),
{
    let mut i: usize = 0;
    while i < containers.len()
        invariant
            i <= containers@.len(),
            forall|k: int| 0 <= k < i ==> !container_matches(#[trigger] containers@[k], name@),
        decreases containers@.len() - i,
    {
        let found = match &containers[i].image {
            Some(img) => *img == *name,
            None => false,
        };
        if found {
            return true;
        }
        i = i + 1;
    }
    false
}

/// Resolves a step into the ordered actions that carry it out.
pub fn resolve(step: Step, image_present: bool, container_running: bool) -> (r: Vec<Action>)
    ensures
        r@ == plan(step, image_present, container_running),
{
    let mut v: Vec<Action> = Vec::new();
    match step {
        Step::Build => {
            v.push(Action::BuildImage);
        },
        Step::Run => {
            if !image_present {
                v.push(Action::BuildImage);
            }
            v.push(Action::LaunchContainer);
        },
        Step::Init | Step::Seed => {
            if container_running {
                v.push(Action::Connect);
                v.push(Action::ExecuteInit);
            } else {
                if !image_present {
                    v.push(Action::BuildImage);
                }
                v.push(Action::LaunchContainer);
                v.push(Action::Settle);
                v.push(Action::Connect);
                v.push(Action::ExecuteInit);
            }
            if step == Step::Seed {
                v.push(Action::ExecuteSeed);
            }
        },
    }
    assert(v@ =~= plan(step, image_present, container_running));
    v
}

} // verus!

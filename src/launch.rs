use vstd::prelude::*;
use crate::image::ImageRef;
use crate::layer::{decompress_layer, gunzip_of};
use crate::registry::{
    LaunchError, blob_url, blob_url_of, layers_from_response, layers_of_text, manifest_url,
    manifest_url_of, texts, token_from_response, token_of_text, token_url, token_url_of,
};
use crate::rootfs::{exit_status, path_in_root, root_relative_path, status_of};

verus! {

/// Where a launch stands. It only moves forward: a stage once left is never
/// entered again.
#[derive(Debug, Clone, Copy, PartialEq, Eq, Structural)]
pub enum Stage {
    /// Waiting for the pull token.
    Authenticating,
    /// Waiting for the manifest.
    Resolving,
    /// Waiting for the blob of layer `index`.
    Fetching { index: usize },
    /// Waiting for layer `index` to be unpacked into the root.
    Unpacking { index: usize },
    /// Waiting for the executable and the device placeholder to be placed.
    Assembling,
    /// Waiting for the filesystem root to be changed.
    Confining,
    /// Waiting for the process-ID namespace request (best effort).
    Isolating,
    /// Waiting for the command to finish.
    Running,
    /// The command finished; its status was handed out.
    Exited,
    /// A step failed; the error was handed out.
    Failed,
}

/// What the caller reports back after carrying out an action.
#[derive(Debug)]
pub enum Event {
    /// The auth answer's text; `None` when the request failed.
    TokenAnswer { body: Option<String> },
    /// The manifest answer's text; `None` when the request failed.
    ManifestAnswer { body: Option<String> },
    /// The layer blob; `None` when the request failed.
    BlobAnswer { blob: Option<Vec<u8>> },
    Unpacked { ok: bool },
    RootPrepared { ok: bool },
    Confined { ok: bool },
    PidsIsolated { ok: bool },
    /// The command ran; `code` is `None` when it ended without one.
    CommandExited { code: Option<i32> },
    /// The command could not be started.
    SpawnFailed,
}

/// What the caller is to do next.
#[derive(Debug)]
pub enum Action {
    FetchToken { url: String },
    /// Fetch with the bearer `token`, accepting the manifest media type.
    FetchManifest { url: String, token: String },
    FetchBlob { url: String, token: String },
    /// Unpack this tar archive over the root, keeping permissions and
    /// extended attributes; later files overwrite earlier ones.
    Unpack { archive: Vec<u8> },
    /// Copy the host file `source` to `target` under the root, creating its
    /// directories; then place `dev/null` if it can (best effort).
    PrepareRoot { source: String, target: String },
    /// Make the root the process's filesystem root.
    Confine,
    /// Ask for a new process-ID namespace for children (best effort).
    IsolatePids,
    /// Run `command` (a path inside the new root) with `args`, capturing its
    /// output in full.
    Spawn { command: String, args: Vec<String> },
    /// Relay the captured output and exit with `status`.
    Exit { status: i32 },
    /// Report `error` and exit with a failure status.
    Abort { error: LaunchError },
    /// Nothing is left to do.
    Finished,
}

/// One run of the launcher: an image, a command and what was learned so far.
pub struct Launch {
    pub image: ImageRef,
    pub command: String,
    pub args: Vec<String>,
    pub token: String,
    pub layers: Vec<String>,
    pub stage: Stage,
}

/// Whether `e` is the successful outcome of what stage `s` waits for.
pub open spec fn succeeded(s: Launch, e: Event) -> bool {
    match s.stage {
        Stage::Authenticating => match e {
            Event::TokenAnswer { body: Some(b) } => token_of_text(b@) is Some,
            _ => false,
        },
        Stage::Resolving => match e {
            Event::ManifestAnswer { body: Some(b) } => layers_of_text(b@) is Some,
            _ => false,
        },
        Stage::Fetching { .. } => match e {
            Event::BlobAnswer { blob: Some(b) } => gunzip_of(b@) is Some,
            _ => false,
        },
        Stage::Unpacking { .. } => match e {
            Event::Unpacked { ok } => ok,
            _ => false,
        },
        Stage::Assembling => match e {
            Event::RootPrepared { ok } => ok,
            _ => false,
        },
        Stage::Confining => match e {
            Event::Confined { ok } => ok,
            _ => false,
        },
        // best effort: a failed request still counts as done
        Stage::Isolating => e is PidsIsolated,
        Stage::Running => e is CommandExited,
        Stage::Exited | Stage::Failed => false,
    }
}

/// The stage after `stage`, given whether its step succeeded and how many
/// layers the manifest listed.
pub open spec fn advance(stage: Stage, ok: bool, n: nat) -> Stage {
    match stage {
        Stage::Exited => Stage::Exited,
        Stage::Failed => Stage::Failed,
        _ => if !ok {
            Stage::Failed
        } else {
            match stage {
                Stage::Authenticating => Stage::Resolving,
                Stage::Resolving => if n == 0 {
                    Stage::Assembling
                } else {
                    Stage::Fetching { index: 0 }
                },
                Stage::Fetching { index } => Stage::Unpacking { index },
                Stage::Unpacking { index } => if index + 1 < n {
                    Stage::Fetching { index: (index + 1) as usize }
                } else {
                    Stage::Assembling
                },
                Stage::Assembling => Stage::Confining,
                Stage::Confining => Stage::Isolating,
                Stage::Isolating => Stage::Running,
                _ => Stage::Exited,
            }
        },
    }
}

/// The error a failed step of stage `s` reports.
pub open spec fn failure_of(s: Launch, err: LaunchError) -> bool {
    match s.stage {
        Stage::Authenticating => err == LaunchError::Auth,
        Stage::Resolving => err == LaunchError::Manifest,
        Stage::Fetching { index } | Stage::Unpacking { index } => match err {
            LaunchError::LayerFetch { digest } => digest@ == s.layers@[index as int]@,
            _ => false,
        },
        Stage::Assembling => err == LaunchError::RootAssembly,
        Stage::Confining | Stage::Isolating | Stage::Running => err == LaunchError::Exec,
        _ => false,
    }
}

/// The pull token after `e`: the answer's token once authenticated.
pub open spec fn token_after(s: Launch, e: Event) -> Seq<char> {
    if s.stage is Authenticating && succeeded(s, e) {
        match e {
            Event::TokenAnswer { body: Some(b) } => token_of_text(b@)->0,
            _ => s.token@,
        }
    } else {
        s.token@
    }
}

/// The layer digests after `e`: the manifest's list once resolved.
pub open spec fn layers_after(s: Launch, e: Event) -> Seq<Seq<char>> {
    if s.stage is Resolving && succeeded(s, e) {
        match e {
            Event::ManifestAnswer { body: Some(b) } => layers_of_text(b@)->0,
            _ => texts(s.layers@),
        }
    } else {
        texts(s.layers@)
    }
}

/// The action handed out when `old` takes `e` and becomes `new`.
pub open spec fn action_after(old: Launch, new: Launch, e: Event, a: Action) -> bool {
    match new.stage {
        Stage::Resolving => match a {
            Action::FetchManifest { url, token } => url@ == manifest_url_of(
                new.image.name@,
                new.image.tag@,
            ) && token@ == new.token@,
            _ => false,
        },
        Stage::Fetching { index } => match a {
            Action::FetchBlob { url, token } => url@ == blob_url_of(
                new.image.name@,
                new.layers@[index as int]@,
            ) && token@ == new.token@,
            _ => false,
        },
        Stage::Unpacking { .. } => match (a, e) {
            (Action::Unpack { archive }, Event::BlobAnswer { blob: Some(b) }) => gunzip_of(b@)
                == Some(archive@),
            _ => false,
        },
        Stage::Assembling => match a {
            Action::PrepareRoot { source, target } => source@ == new.command@ && target@
                == path_in_root(new.command@),
            _ => false,
        },
        Stage::Confining => a is Confine,
        Stage::Isolating => a is IsolatePids,
        Stage::Running => match a {
            Action::Spawn { command, args } => command@ == new.command@ && args@ == old.args@,
            _ => false,
        },
        Stage::Exited => match (old.stage, e, a) {
            (Stage::Running, Event::CommandExited { code }, Action::Exit { status }) => status
                == status_of(code),
            (Stage::Exited, _, Action::Finished) => true,
            _ => false,
        },
        Stage::Failed => match a {
            Action::Abort { error } => old.stage != Stage::Failed && failure_of(old, error),
            Action::Finished => old.stage == Stage::Failed,
            _ => false,
        },
        Stage::Authenticating => false,
    }
}

impl Launch {
    /// Every layer index a stage names is in the manifest.
    pub open spec fn wf(&self) -> bool {
        match self.stage {
            Stage::Fetching { index } | Stage::Unpacking { index } => index < self.layers@.len(),
            _ => true,
        }
    }

    /// A launch of `command` with `args` in `image`, before anything is fetched.
    pub fn new(image: ImageRef, command: String, args: Vec<String>) -> (r: Launch)
        ensures
            r.wf(),
            r.stage == Stage::Authenticating,
            r.image == image,
            r.command == command,
            r.args == args,
            r.token@.len() == 0,
            r.layers@.len() == 0,
    {
        Launch { image, command, args, token: String::new(), layers: Vec::new(), stage: Stage::Authenticating }
    }

    /// The first action: ask for a pull token.
    pub fn first_action(&self) -> (a: Action)
        ensures
            match a {
                Action::FetchToken { url } => url@ == token_url_of(self.image.name@),
                _ => false,
            },
    {
        Action::FetchToken { url: token_url(self.image.name.as_str()) }
    }

    /// Marks the launch failed and hands out the error of its current stage.
    fn fail(&mut self) -> (a: Action)
        requires
            old(self).wf(),
        ensures
            final(self).stage == (if old(self).stage == Stage::Exited { Stage::Exited } else { Stage::Failed }),
            final(self).image == old(self).image,
            final(self).command == old(self).command,
            final(self).args == old(self).args,
            final(self).token == old(self).token,
            final(self).layers == old(self).layers,
            old(self).stage == Stage::Exited ==> a is Finished,
            old(self).stage == Stage::Failed ==> a is Finished,
            old(self).stage != Stage::Exited && old(self).stage != Stage::Failed ==> match a {
                Action::Abort { error } => failure_of(*old(self), error),
                _ => false,
            },
    {
        let a = match self.stage {
            Stage::Authenticating => Action::Abort { error: LaunchError::Auth },
            Stage::Resolving => Action::Abort { error: LaunchError::Manifest },
            Stage::Fetching { index } | Stage::Unpacking { index } => Action::Abort {
                error: LaunchError::LayerFetch { digest: self.layers[index].clone() },
            },
            Stage::Assembling => Action::Abort { error: LaunchError::RootAssembly },
            Stage::Confining | Stage::Isolating | Stage::Running => Action::Abort {
                error: LaunchError::Exec,
            },
            Stage::Exited => return Action::Finished,
            Stage::Failed => Action::Finished,
        };
        self.stage = Stage::Failed;
        a
    }
    fn prepare_action(&self) -> (a: Action)
        ensures
            match a {
                Action::PrepareRoot { source, target } => source@ == self.command@ && target@
                    == path_in_root(self.command@),
                _ => false,
            },
    {
        Action::PrepareRoot {
            source: self.command.clone(),
            target: root_relative_path(self.command.as_str()),
        }
    }

    fn fetch_action(&self, index: usize) -> (a: Action)
        requires
            index < self.layers@.len(),
        ensures
            match a {
                Action::FetchBlob { url, token } => url@ == blob_url_of(
                    self.image.name@,
                    self.layers@[index as int]@,
                ) && token@ == self.token@,
                _ => false,
            },
    {
        Action::FetchBlob {
            url: blob_url(self.image.name.as_str(), self.layers[index].as_str()),
            token: self.token.clone(),
        }
    }

    /// Takes the outcome of the last action and hands out the next one.
    pub fn step(&mut self, e: Event) -> (a: Action)
        requires
            old(self).wf(),
        ensures
            final(self).wf(),
            final(self).stage == advance(
                old(self).stage,
                succeeded(*old(self), e),
                final(self).layers@.len(),
            ),
            final(self).image == old(self).image,
            final(self).command == old(self).command,
            final(self).token@ == token_after(*old(self), e),
            texts(final(self).layers@) == layers_after(*old(self), e),
            action_after(*old(self), *final(self), e, a),
    {
        match self.stage {
            Stage::Authenticating => {
                if let Event::TokenAnswer { body: Some(b) } = e {
                    if let Ok(t) = token_from_response(b.as_str()) {
                        self.token = t;
                        self.stage = Stage::Resolving;
                        return Action::FetchManifest {
                            url: manifest_url(self.image.name.as_str(), self.image.tag.as_str()),
                            token: self.token.clone(),
                        };
                    }
                }
                self.fail()
            },
            Stage::Resolving => {
                if let Event::ManifestAnswer { body: Some(b) } = e {
                    if let Ok(v) = layers_from_response(b.as_str()) {
                        self.layers = v;
                        if self.layers.len() == 0 {
                            self.stage = Stage::Assembling;
                            return self.prepare_action();
                        } else {
                            self.stage = Stage::Fetching { index: 0 };
                            return self.fetch_action(0);
                        }
                    }
                }
                self.fail()
            },
            Stage::Fetching { index } => {
                if let Event::BlobAnswer { blob: Some(b) } = e {
                    if let Ok(archive) = decompress_layer(&self.layers[index], b.as_slice()) {
                        self.stage = Stage::Unpacking { index };
                        return Action::Unpack { archive };
                    }
                }
                self.fail()
            },
            Stage::Unpacking { index } => {
                if let Event::Unpacked { ok: true } = e {
                    if index < self.layers.len() - 1 {
                        self.stage = Stage::Fetching { index: index + 1 };
                        return self.fetch_action(index + 1);
                    } else {
                        self.stage = Stage::Assembling;
                        return self.prepare_action();
                    }
                }
                self.fail()
            },
            Stage::Assembling => {
                if let Event::RootPrepared { ok: true } = e {
                    self.stage = Stage::Confining;
                    return Action::Confine;
                }
                self.fail()
            },
            Stage::Confining => {
                if let Event::Confined { ok: true } = e {
                    self.stage = Stage::Isolating;
                    return Action::IsolatePids;
                }
                self.fail()
            },
            Stage::Isolating => {
                // the namespace request is best effort: its outcome is not checked
                if let Event::PidsIsolated { .. } = e {
                    let mut args: Vec<String> = Vec::new();
                    core::mem::swap(&mut args, &mut self.args);
                    self.stage = Stage::Running;
                    return Action::Spawn { command: self.command.clone(), args };
                }
                self.fail()
            },
            Stage::Running => {
                if let Event::CommandExited { code } = e {
                    self.stage = Stage::Exited;
                    return Action::Exit { status: exit_status(code) };
                }
                self.fail()
            },
            Stage::Exited | Stage::Failed => self.fail(),
        }
    }
}

} // verus!

//! The audio server.

use vstd::prelude::*;
use crate::callback::{Callback, Callback0};
use crate::dispatch::{joined, told, unused, Dispatcher, Registry};
use crate::facade::{
    AudioServerBackendFacade, AudioServerFacade, ComponentBackendFacade, ComponentFacade, Error,
};
use crate::inprocess::{
    everywhere, listen, send, subscribe_everywhere, ComponentBus, ComponentStreams,
};
use crate::ontology::{
    AudioFrameMessage, ErrorMessage, PlayBytesMessage, PlayFinishedMessage, SiteId,
    VersionMessage,
};
use crate::topic::{address, route_of, Component, MessageKind};

verus! {

/// The subscriptions of the audio server.
pub struct AudioServerBus {
    pub component: ComponentBus,
    pub plays: Registry<PlayBytesMessage>,
    pub finished: Registry<PlayFinishedMessage>,
    pub frames: Registry<AudioFrameMessage>,
}

impl AudioServerBus {
    /// Nobody has subscribed yet.
    pub open spec fn quiet(self) -> bool {
        &&& self.component.quiet()
        &&& unused(self.plays)
        &&& unused(self.finished)
        &&& unused(self.frames)
    }
}

/// The audio server, in process.
pub struct InProcessAudioServer {
    component: ComponentStreams,
    plays: Dispatcher<PlayBytesMessage>,
    finished: Dispatcher<PlayFinishedMessage>,
    frames: Dispatcher<AudioFrameMessage>,
}

impl View for InProcessAudioServer {
    type V = AudioServerBus;

    closed spec fn view(&self) -> AudioServerBus {
        AudioServerBus {
            component: self.component@,
            plays: self.plays@,
            finished: self.finished@,
            frames: self.frames@,
        }
    }
}

impl InProcessAudioServer {
    /// A stage to which nobody has subscribed yet.
    pub fn new() -> (stage: InProcessAudioServer)
        ensures
            stage@.quiet(),
    {
        InProcessAudioServer {
            component: ComponentStreams::new(),
            plays: Dispatcher::new(),
            finished: Dispatcher::new(),
            frames: Dispatcher::new(),
        }
    }
}

impl ComponentFacade for InProcessAudioServer {
    fn publish_version_request(&self) -> (outcome: Result<(), Error>)
        ensures
            outcome is Ok,
            told(
                self@.component.version_requests,
                everywhere(Component::AudioServer, MessageKind::VersionRequest),
                &(),
            ),
    {
        self.component.publish_version_request(Component::AudioServer)
    }

    fn subscribe_version(
        &mut self,
        handler: Callback<VersionMessage>,
    ) -> (outcome: Result<(), Error>)
        ensures
            outcome is Ok,
            final(self)@ == (AudioServerBus {
                component: ComponentBus {
                    versions: joined(
                        old(self)@.component.versions,
                        everywhere(Component::AudioServer, MessageKind::Version),
                        handler,
                    ),
                    ..old(self)@.component
                },
                ..old(self)@
            }),
    {
        self.component.subscribe_version(Component::AudioServer, handler)
    }

    fn subscribe_error(&mut self, handler: Callback<ErrorMessage>) -> (outcome: Result<(), Error>)
        ensures
            outcome is Ok,
            final(self)@ == (AudioServerBus {
                component: ComponentBus {
                    errors: joined(
                        old(self)@.component.errors,
                        everywhere(Component::AudioServer, MessageKind::Error),
                        handler,
                    ),
                    ..old(self)@.component
                },
                ..old(self)@
            }),
    {
        self.component.subscribe_error(Component::AudioServer, handler)
    }
}

impl ComponentBackendFacade for InProcessAudioServer {
    fn subscribe_version_request(&mut self, handler: Callback0) -> (outcome: Result<(), Error>)
        ensures
            outcome is Ok,
            final(self)@ == (AudioServerBus {
                component: ComponentBus {
                    version_requests: joined(
                        old(self)@.component.version_requests,
                        everywhere(Component::AudioServer, MessageKind::VersionRequest),
                        handler.on_unit(),
                    ),
                    ..old(self)@.component
                },
                ..old(self)@
            }),
    {
        self.component.subscribe_version_request(Component::AudioServer, handler)
    }

    fn publish_version(&self, version: VersionMessage) -> (outcome: Result<(), Error>)
        ensures
            outcome is Ok,
            told(
                self@.component.versions,
                everywhere(Component::AudioServer, MessageKind::Version),
                &version,
            ),
    {
        self.component.publish_version(Component::AudioServer, version)
    }

    fn publish_error(&self, error: ErrorMessage) -> (outcome: Result<(), Error>)
        ensures
            outcome is Ok,
            told(
                self@.component.errors,
                route_of(
                    Component::AudioServer,
                    MessageKind::Error,
                    None,
                    error.session_id.deep_view(),
                ),
                &error,
            ),
    {
        self.component.publish_error(Component::AudioServer, error)
    }
}

impl AudioServerFacade for InProcessAudioServer {
    fn publish_play_bytes(&self, bytes: PlayBytesMessage) -> (outcome: Result<(), Error>)
        ensures
            outcome is Ok,
            told(
                self@.plays,
                route_of(
                    Component::AudioServer,
                    MessageKind::PlayBytes,
                    Some(bytes.site_id@),
                    None,
                ),
                &bytes,
            ),
    {
        send(
            &self.plays,
            address(
                Component::AudioServer,
                MessageKind::PlayBytes,
                Some(bytes.site_id.clone()),
                None,
            ),
            &bytes,
        )
    }

    fn subscribe_play_finished(
        &mut self,
        handler: Callback<PlayFinishedMessage>,
    ) -> (outcome: Result<(), Error>)
        ensures
            outcome is Ok,
            final(self)@ == (AudioServerBus {
                finished: joined(
                    old(self)@.finished,
                    everywhere(Component::AudioServer, MessageKind::PlayFinished),
                    handler,
                ),
                ..old(self)@
            }),
    {
        subscribe_everywhere(
            &mut self.finished,
            Component::AudioServer,
            MessageKind::PlayFinished,
            handler,
        )
    }

    fn subscribe_audio_frame(
        &mut self,
        site_id: SiteId,
        handler: Callback<AudioFrameMessage>,
    ) -> (outcome: Result<(), Error>)
        ensures
            outcome is Ok,
            final(self)@ == (AudioServerBus {
                frames: joined(
                    old(self)@.frames,
                    route_of(
                        Component::AudioServer,
                        MessageKind::AudioFrame,
                        Some(site_id@),
                        None,
                    ),
                    handler,
                ),
                ..old(self)@
            }),
    {
        listen(
            &mut self.frames,
            address(Component::AudioServer, MessageKind::AudioFrame, Some(site_id), None),
            handler,
        )
    }
}

impl AudioServerBackendFacade for InProcessAudioServer {
    fn subscribe_play_bytes(
        &mut self,
        site_id: SiteId,
        handler: Callback<PlayBytesMessage>,
    ) -> (outcome: Result<(), Error>)
        ensures
            outcome is Ok,
            final(self)@ == (AudioServerBus {
                plays: joined(
                    old(self)@.plays,
                    route_of(
                        Component::AudioServer,
                        MessageKind::PlayBytes,
                        Some(site_id@),
                        None,
                    ),
                    handler,
                ),
                ..old(self)@
            }),
    {
        listen(
            &mut self.plays,
            address(Component::AudioServer, MessageKind::PlayBytes, Some(site_id), None),
            handler,
        )
    }

    fn publish_play_finished(&self, status: PlayFinishedMessage) -> (outcome: Result<(), Error>)
        ensures
            outcome is Ok,
            told(
                self@.finished,
                everywhere(Component::AudioServer, MessageKind::PlayFinished),
                &status,
            ),
    {
        send(
            &self.finished,
            address(Component::AudioServer, MessageKind::PlayFinished, None, None),
            &status,
        )
    }

    fn publish_audio_frame(&self, frame: AudioFrameMessage) -> (outcome: Result<(), Error>)
        ensures
            outcome is Ok,
            told(
                self@.frames,
                route_of(
                    Component::AudioServer,
                    MessageKind::AudioFrame,
                    Some(frame.site_id@),
                    None,
                ),
                &frame,
            ),
    {
        send(
            &self.frames,
            address(
                Component::AudioServer,
                MessageKind::AudioFrame,
                Some(frame.site_id.clone()),
                None,
            ),
            &frame,
        )
    }
}

} // verus!

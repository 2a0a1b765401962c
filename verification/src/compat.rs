//! Policy for the flags of `MAVLink 2` frames that come in or go out.

use vstd::prelude::*;
use crate::error::IncompatFlagsError;
use crate::flags::{with_signed_bit, CompatFlags, IncompatFlags};
use crate::frame::{Frame, FrameView};
use crate::header::HeaderView;
use crate::marker::MaybeVersioned;
use crate::types::MavLinkVersion;

verus! {

/// What to do with the flags of a frame.
#[derive(Clone, Copy, Debug, PartialEq, Eq, Structural)]
pub enum CompatStrategy {
    /// Reject a frame whose incompatibility flags are not the configured ones. Change nothing.
    Reject,
    /// Like `Reject`, and give a frame that passes the configured compatibility flags.
    RejectSet,
    /// Give the frame the configured flags of both kinds.
    Enforce,
    /// Give the frame the configured incompatibility flags, and leave its compatibility flags.
    EnforceProxy,
    /// Let the frame pass as it is.
    Proxy,
}

impl CompatStrategy {
    /// Whether the strategy rejects frames with other incompatibility flags.
    pub open spec fn rejects(self) -> bool {
        self == CompatStrategy::Reject || self == CompatStrategy::RejectSet
    }

    /// Whether the strategy overwrites incompatibility flags.
    pub open spec fn sets_incompat(self) -> bool {
        self == CompatStrategy::Enforce || self == CompatStrategy::EnforceProxy
    }

    /// Whether the strategy overwrites compatibility flags.
    pub open spec fn sets_compat(self) -> bool {
        self == CompatStrategy::Enforce || self == CompatStrategy::RejectSet
    }
}

/// Applies a flag policy to frames.
///
/// Flags that are not configured are neither checked nor changed. `MAVLink 1` frames have no
/// flags and pass untouched.
#[derive(Clone, Copy, Debug)]
pub struct CompatProcessor {
    incompat_flags: Option<IncompatFlags>,
    compat_flags: Option<CompatFlags>,
    incoming: CompatStrategy,
    outgoing: CompatStrategy,
    ignore_signature: bool,
}

/// Turns something into a [`CompatProcessor`].
pub trait IntoCompatProcessor {
    /// The processor that comes out.
    open spec fn spec_processor(&self) -> CompatProcessor {
        arbitrary()
    }

    /// The processor.
    fn into_compat_processor(self) -> (processor: CompatProcessor)
        ensures
            processor == self.spec_processor(),
    ;
}

/// Builder of a [`CompatProcessor`].
#[derive(Clone, Copy, Debug)]
pub struct CompatProcessorBuilder {
    inner: CompatProcessor,
}

impl CompatProcessor {
    /// The configured incompatibility flags.
    pub closed spec fn spec_incompat_flags(&self) -> Option<IncompatFlags> {
        self.incompat_flags
    }

    /// The configured compatibility flags.
    pub closed spec fn spec_compat_flags(&self) -> Option<CompatFlags> {
        self.compat_flags
    }

    /// The strategy for frames that come in.
    pub closed spec fn spec_incoming(&self) -> CompatStrategy {
        self.incoming
    }

    /// The strategy for frames that go out.
    pub closed spec fn spec_outgoing(&self) -> CompatStrategy {
        self.outgoing
    }

    /// Whether the "signed" flag follows the frame instead of the configuration.
    pub closed spec fn spec_ignore_signature(&self) -> bool {
        self.ignore_signature
    }

    /// The incompatibility flags that the processor wants `frame` to have, if it wants any.
    ///
    /// These are the configured flags. If signatures are ignored, their "signed" flag is set
    /// to whether the frame carries a signature.
    pub open spec fn wanted_incompat(&self, frame: FrameView) -> Option<u8> {
        match self.spec_incompat_flags() {
            None => None,
            Some(flags) => Some(
                if self.spec_ignore_signature() {
                    with_signed_bit(flags@, frame.signature is Some)
                } else {
                    flags@
                },
            ),
        }
    }

    /// Whether the processor rejects `frame` under `strategy`: the frame is one of `MAVLink 2`,
    /// the strategy is a rejecting one, and the frame does not have the flags that the
    /// processor wants.
    pub open spec fn rejects(&self, frame: FrameView, strategy: CompatStrategy) -> bool {
        &&& frame.header.version == MavLinkVersion::V2
        &&& strategy.rejects()
        &&& self.wanted_incompat(frame) matches Some(wanted) && wanted
            != frame.header.incompat_flags
    }

    /// The frame that the processor makes of `frame` under `strategy`, if it does not reject
    /// it.
    pub open spec fn processed(&self, frame: FrameView, strategy: CompatStrategy) -> FrameView {
        if frame.header.version == MavLinkVersion::V2 {
            let compat_flags = match self.spec_compat_flags() {
                Some(flags) if strategy.sets_compat() => flags@,
                _ => frame.header.compat_flags,
            };
            let incompat_flags = match self.wanted_incompat(frame) {
                Some(wanted) if strategy.sets_incompat() => wanted,
                _ => frame.header.incompat_flags,
            };
            let header = HeaderView { incompat_flags, compat_flags, ..frame.header };
            FrameView { header, ..frame }
        } else {
            frame
        }
    }

    /// A builder with the defaults: nothing configured, incoming frames are checked, outgoing
    /// frames are set, signatures are ignored.
    pub fn builder() -> (builder: CompatProcessorBuilder)
        ensures
            builder.spec_inner().spec_incompat_flags() is None,
            builder.spec_inner().spec_compat_flags() is None,
            builder.spec_inner().spec_incoming() == CompatStrategy::Reject,
            builder.spec_inner().spec_outgoing() == CompatStrategy::Enforce,
            builder.spec_inner().spec_ignore_signature(),
    {
        CompatProcessorBuilder::new()
    }

    /// A builder that starts from this processor.
    pub fn update(self) -> (builder: CompatProcessorBuilder)
        ensures
            builder.spec_inner() == self,
    {
        CompatProcessorBuilder { inner: self }
    }

    /// The configured incompatibility flags.
    pub fn incompat_flags(&self) -> (flags: Option<IncompatFlags>)
        ensures
            flags == self.spec_incompat_flags(),
    {
        self.incompat_flags
    }

    /// The configured compatibility flags.
    pub fn compat_flags(&self) -> (flags: Option<CompatFlags>)
        ensures
            flags == self.spec_compat_flags(),
    {
        self.compat_flags
    }

    /// The strategy for frames that come in.
    pub fn incoming(&self) -> (strategy: CompatStrategy)
        ensures
            strategy == self.spec_incoming(),
    {
        self.incoming
    }

    /// The strategy for frames that go out.
    pub fn outgoing(&self) -> (strategy: CompatStrategy)
        ensures
            strategy == self.spec_outgoing(),
    {
        self.outgoing
    }

    /// Whether the "signed" flag follows the frame instead of the configuration.
    pub fn ignore_signature(&self) -> (ignore: bool)
        ensures
            ignore == self.spec_ignore_signature(),
    {
        self.ignore_signature
    }

    /// Applies the strategy for frames that come in.
    pub fn process_incoming<V: MaybeVersioned>(&self, frame: &mut Frame<V>) -> (r: Result<
        (),
        IncompatFlagsError,
    >)
        ensures
            r is Err <==> self.rejects(old(frame)@, self.spec_incoming()),
            r is Ok ==> final(frame)@ == self.processed(old(frame)@, self.spec_incoming()),
            r matches Err(e) ==> final(frame)@ == old(frame)@ && Some(e.expected@)
                == self.wanted_incompat(old(frame)@) && e.actual@
                == old(frame)@.header.incompat_flags,
    {
        self.process_for_strategy(frame, self.incoming)
    }

    /// Applies the strategy for frames that go out.
    pub fn process_outgoing<V: MaybeVersioned>(&self, frame: &mut Frame<V>) -> (r: Result<
        (),
        IncompatFlagsError,
    >)
        ensures
            r is Err <==> self.rejects(old(frame)@, self.spec_outgoing()),
            r is Ok ==> final(frame)@ == self.processed(old(frame)@, self.spec_outgoing()),
            r matches Err(e) ==> final(frame)@ == old(frame)@ && Some(e.expected@)
                == self.wanted_incompat(old(frame)@) && e.actual@
                == old(frame)@.header.incompat_flags,
    {
        self.process_for_strategy(frame, self.outgoing)
    }

    /// Applies a strategy to a frame.
    ///
    /// A rejected frame stays as it is, and the error names the flags that were wanted and the
    /// flags that the frame has.
    pub fn process_for_strategy<V: MaybeVersioned>(
        &self,
        frame: &mut Frame<V>,
        strategy: CompatStrategy,
    ) -> (r: Result<(), IncompatFlagsError>)
        ensures
            r is Err <==> self.rejects(old(frame)@, strategy),
            r is Ok ==> final(frame)@ == self.processed(old(frame)@, strategy),
            r matches Err(e) ==> final(frame)@ == old(frame)@ && Some(e.expected@)
                == self.wanted_incompat(old(frame)@) && e.actual@
                == old(frame)@.header.incompat_flags,
    {
        let actual = match frame.incompat_flags() {
            Some(flags) => flags,
            None => {
                return Ok(());
            },
        };
        let wanted = match self.incompat_flags {
            Some(flags) => Some(
                if self.ignore_signature {
                    flags.with_signed(frame.is_signed())
                } else {
                    flags
                },
            ),
            None => None,
        };
        match wanted {
            Some(expected) => match strategy {
                CompatStrategy::Reject | CompatStrategy::RejectSet => {
                    if expected.bits() != actual.bits() {
                        return Err(IncompatFlagsError { expected, actual });
                    }
                },
                CompatStrategy::Enforce | CompatStrategy::EnforceProxy => {
                    frame.set_incompat_flags(expected);
                },
                CompatStrategy::Proxy => {},
            },
            None => {},
        }
        match self.compat_flags {
            Some(compat_flags) => match strategy {
                CompatStrategy::Enforce | CompatStrategy::RejectSet => {
                    frame.set_compat_flags(compat_flags);
                },
                _ => {},
            },
            None => {},
        }
        Ok(())
    }
}

impl IntoCompatProcessor for CompatProcessor {
    open spec fn spec_processor(&self) -> CompatProcessor {
        *self
    }

    fn into_compat_processor(self) -> (processor: CompatProcessor) {
        self
    }
}

impl CompatProcessorBuilder {
    /// The processor that the builder holds.
    pub closed spec fn spec_inner(&self) -> CompatProcessor {
        self.inner
    }

    /// A builder with the defaults: nothing configured, incoming frames are checked, outgoing
    /// frames are set, signatures are ignored.
    pub fn new() -> (builder: CompatProcessorBuilder)
        ensures
            builder.spec_inner().spec_incompat_flags() is None,
            builder.spec_inner().spec_compat_flags() is None,
            builder.spec_inner().spec_incoming() == CompatStrategy::Reject,
            builder.spec_inner().spec_outgoing() == CompatStrategy::Enforce,
            builder.spec_inner().spec_ignore_signature(),
    {
        CompatProcessorBuilder {
            inner: CompatProcessor {
                incompat_flags: None,
                compat_flags: None,
                incoming: CompatStrategy::Reject,
                outgoing: CompatStrategy::Enforce,
                ignore_signature: true,
            },
        }
    }

    /// Configures the incompatibility flags.
    pub fn incompat_flags(self, incompat_flags: IncompatFlags) -> (builder: Self)
        ensures
            builder.spec_inner().spec_incompat_flags() == Some(incompat_flags),
            builder.spec_inner().spec_compat_flags() == self.spec_inner().spec_compat_flags(),
            builder.spec_inner().spec_incoming() == self.spec_inner().spec_incoming(),
            builder.spec_inner().spec_outgoing() == self.spec_inner().spec_outgoing(),
            builder.spec_inner().spec_ignore_signature()
                == self.spec_inner().spec_ignore_signature(),
    {
        let mut builder = self;
        builder.inner.incompat_flags = Some(incompat_flags);
        builder
    }

    /// Configures the compatibility flags.
    pub fn compat_flags(self, compat_flags: CompatFlags) -> (builder: Self)
        ensures
            builder.spec_inner().spec_incompat_flags() == self.spec_inner().spec_incompat_flags(),
            builder.spec_inner().spec_compat_flags() == Some(compat_flags),
            builder.spec_inner().spec_incoming() == self.spec_inner().spec_incoming(),
            builder.spec_inner().spec_outgoing() == self.spec_inner().spec_outgoing(),
            builder.spec_inner().spec_ignore_signature()
                == self.spec_inner().spec_ignore_signature(),
    {
        let mut builder = self;
        builder.inner.compat_flags = Some(compat_flags);
        builder
    }

    /// Sets the strategy for frames that come in.
    pub fn incoming(self, strategy: CompatStrategy) -> (builder: Self)
        ensures
            builder.spec_inner().spec_incompat_flags() == self.spec_inner().spec_incompat_flags(),
            builder.spec_inner().spec_compat_flags() == self.spec_inner().spec_compat_flags(),
            builder.spec_inner().spec_incoming() == strategy,
            builder.spec_inner().spec_outgoing() == self.spec_inner().spec_outgoing(),
            builder.spec_inner().spec_ignore_signature()
                == self.spec_inner().spec_ignore_signature(),
    {
        let mut builder = self;
        builder.inner.incoming = strategy;
        builder
    }

    /// Sets the strategy for frames that go out.
    pub fn outgoing(self, strategy: CompatStrategy) -> (builder: Self)
        ensures
            builder.spec_inner().spec_incompat_flags() == self.spec_inner().spec_incompat_flags(),
            builder.spec_inner().spec_compat_flags() == self.spec_inner().spec_compat_flags(),
            builder.spec_inner().spec_incoming() == self.spec_inner().spec_incoming(),
            builder.spec_inner().spec_outgoing() == strategy,
            builder.spec_inner().spec_ignore_signature()
                == self.spec_inner().spec_ignore_signature(),
    {
        let mut builder = self;
        builder.inner.outgoing = strategy;
        builder
    }

    /// Says whether the "signed" flag follows the frame instead of the configuration.
    pub fn ignore_signature(self, value: bool) -> (builder: Self)
        ensures
            builder.spec_inner().spec_incompat_flags() == self.spec_inner().spec_incompat_flags(),
            builder.spec_inner().spec_compat_flags() == self.spec_inner().spec_compat_flags(),
            builder.spec_inner().spec_incoming() == self.spec_inner().spec_incoming(),
            builder.spec_inner().spec_outgoing() == self.spec_inner().spec_outgoing(),
            builder.spec_inner().spec_ignore_signature() == value,
    {
        let mut builder = self;
        builder.inner.ignore_signature = value;
        builder
    }

    /// The processor.
    pub fn build(self) -> (processor: CompatProcessor)
        ensures
            processor == self.spec_inner(),
    {
        self.inner
    }
}

impl Default for CompatProcessorBuilder {
    /// A builder with the defaults.
    fn default() -> (builder: CompatProcessorBuilder)
        ensures
            builder.spec_inner().spec_incompat_flags() is None,
            builder.spec_inner().spec_compat_flags() is None,
            builder.spec_inner().spec_incoming() == CompatStrategy::Reject,
            builder.spec_inner().spec_outgoing() == CompatStrategy::Enforce,
            builder.spec_inner().spec_ignore_signature(),
    {
        CompatProcessorBuilder::new()
    }
}

impl IntoCompatProcessor for CompatProcessorBuilder {
    open spec fn spec_processor(&self) -> CompatProcessor {
        self.spec_inner()
    }

    fn into_compat_processor(self) -> (processor: CompatProcessor) {
        self.build()
    }
}

/// A processor that ignores signatures keeps frames in agreement with themselves: whatever it
/// makes of a frame whose parts agree is a frame whose parts agree. The default strategies
/// are among those it holds for.
pub proof fn lemma_processing_keeps_frames_whole(
    processor: CompatProcessor,
    frame: FrameView,
    strategy: CompatStrategy,
)
    requires
        frame.wf(),
        processor.spec_ignore_signature() || !strategy.sets_incompat(),
    ensures
        processor.processed(frame, strategy).wf(),
{
    if frame.header.version == MavLinkVersion::V2 {
        match processor.spec_incompat_flags() {
            Some(flags) => {
                crate::flags::lemma_with_signed_bit(flags@, frame.signature is Some);
            },
            None => {},
        }
    }
}

} // verus!

//! The layers that wrap the router, and the order in which they are attached.
use vstd::prelude::*;

verus! {

/// A cross-cutting layer of the request pipeline.
#[derive(Clone, Copy, Debug, PartialEq, Eq, Structural)]
pub enum Layer {
    /// Records each request and its response.
    RequestLogging,
    /// Gives each request an identifier.
    RequestId,
    /// Opens a trace span around each request.
    Tracing,
    /// Answers cross-origin requests from any origin, with any method and
    /// any header.
    PermissiveCors,
}

/// The layers of a pipeline in the order in which they are attached to the
/// router. A layer attached later wraps those attached before it, so the
/// last of the sequence sees a request first and its response last.
pub open spec fn pipeline_layers(cors_enabled: bool) -> Seq<Layer> {
    let fixed = seq![Layer::RequestLogging, Layer::RequestId, Layer::Tracing];
    if cors_enabled {
        fixed.push(Layer::PermissiveCors)
    } else {
        fixed
    }
}

/// In `layers`, `outer` is attached after `inner`, and so wraps it.
pub open spec fn wraps(layers: Seq<Layer>, outer: Layer, inner: Layer) -> bool {
    exists|i: int, j: int|
        0 <= i < j < layers.len() && #[trigger] layers[i] == inner && #[trigger] layers[j] == outer
}

/// Lists the layers to attach to the router, first to last.
pub fn plan_layers(cors_enabled: bool) -> (layers: Vec<Layer>)
    ensures
        layers@ == pipeline_layers(cors_enabled),
{
    let mut layers: Vec<Layer> = Vec::new();
    layers.push(Layer::RequestLogging);
    layers.push(Layer::RequestId);
    layers.push(Layer::Tracing);
    if cors_enabled {
        layers.push(Layer::PermissiveCors);
    }
    assert(layers@ =~= pipeline_layers(cors_enabled));
    layers
}

/// The cross-origin layer is part of the pipeline exactly when the
/// configuration enables it.
pub proof fn lemma_cors_iff_enabled(cors_enabled: bool)
    ensures
        pipeline_layers(cors_enabled).contains(Layer::PermissiveCors) <==> cors_enabled,
{
    let layers = pipeline_layers(cors_enabled);
    if cors_enabled {
        assert(layers[3] == Layer::PermissiveCors);
    }
}

/// Where the cross-origin layer is attached it is attached last, so that it
/// is outermost and wraps every other layer.
pub proof fn lemma_cors_outermost(layer: Layer)
    requires
        layer != Layer::PermissiveCors,
    ensures
        pipeline_layers(true).last() == Layer::PermissiveCors,
        wraps(pipeline_layers(true), Layer::PermissiveCors, layer),
{
    let layers = pipeline_layers(true);
    let i: int = match layer {
        Layer::RequestLogging => 0,
        Layer::RequestId => 1,
        _ => 2,
    };
    assert(layers[i] == layer && layers[3] == Layer::PermissiveCors);
}

/// Request identifiers and trace spans wrap the logging layer, whatever the
/// configuration: logging is attached first, then the identifier, then
/// tracing.
pub proof fn lemma_logging_is_innermost(cors_enabled: bool)
    ensures
        pipeline_layers(cors_enabled)[0] == Layer::RequestLogging,
        pipeline_layers(cors_enabled)[1] == Layer::RequestId,
        pipeline_layers(cors_enabled)[2] == Layer::Tracing,
        wraps(pipeline_layers(cors_enabled), Layer::RequestId, Layer::RequestLogging),
        wraps(pipeline_layers(cors_enabled), Layer::Tracing, Layer::RequestLogging),
        wraps(pipeline_layers(cors_enabled), Layer::Tracing, Layer::RequestId),
{
    let layers = pipeline_layers(cors_enabled);
    assert(layers[0] == Layer::RequestLogging && layers[1] == Layer::RequestId);
    assert(layers[0] == Layer::RequestLogging && layers[2] == Layer::Tracing);
    assert(layers[1] == Layer::RequestId && layers[2] == Layer::Tracing);
}

/// No layer is attached twice.
pub proof fn lemma_layers_distinct(cors_enabled: bool)
    ensures
        pipeline_layers(cors_enabled).no_duplicates(),
{
}

/// Enabling cross-origin access changes nothing but the outermost layer:
/// the pipeline without it is the pipeline with it, less its last layer.
pub proof fn lemma_cors_only_adds(cors_enabled: bool)
    ensures
        pipeline_layers(false) == pipeline_layers(true).drop_last(),
{
    assert(pipeline_layers(false) =~= pipeline_layers(true).drop_last());
}

} // verus!

use vstd::prelude::*;

use crate::body::{Body, BodyKind};

verus! {

#[verifier::external_type_specification]
#[verifier::external_body]
pub struct ExRegistry(prometheus::Registry);

#[verifier::external_type_specification]
#[verifier::external_body]
pub struct ExMetricFamily(prometheus::proto::MetricFamily);

#[verifier::external_type_specification]
#[verifier::external_body]
pub struct ExTextEncoder(prometheus::TextEncoder);

#[verifier::external_type_specification]
#[verifier::external_body]
pub struct ExPrometheusError(prometheus::Error);

/// Relies on prometheus::Registry::gather: a snapshot of the metric families
/// currently registered. The snapshot depends on the process's registry
/// state, so nothing is promised of its contents.
#[verifier::external_body]
fn gather_families(registry: &prometheus::Registry) -> (r: Vec<
    prometheus::proto::MetricFamily,
>) {
    registry.gather()
}

/// Relies on prometheus::TextEncoder::new.
#[verifier::external_body]
fn new_text_encoder() -> (r: prometheus::TextEncoder) {
    prometheus::TextEncoder::new()
}

/// Relies on Encoder::encode for prometheus::TextEncoder: writes the metric
/// families into a fresh buffer in the text exposition format, or reports
/// the encoder's failure.
#[verifier::external_body]
fn encode_families(
    encoder: &prometheus::TextEncoder,
    families: &Vec<prometheus::proto::MetricFamily>,
) -> (r: Result<Vec<u8>, prometheus::Error>) {
    let mut buffer: Vec<u8> = Vec::new();
    match prometheus::Encoder::encode(encoder, families, &mut buffer) {
        Ok(()) => Ok(buffer),
        Err(e) => Err(e),
    }
}

/// Relies on prometheus::Error's Display implementation for a human-readable
/// description of the encoding failure.
#[verifier::external_body]
fn prometheus_error_message(e: &prometheus::Error) -> (r: String) {
    e.to_string()
}

/// Relies on Encoder::format_type for prometheus::TextEncoder, which returns
/// the constant content type of the text exposition format.
#[verifier::external_body]
fn encoder_format_type(encoder: &prometheus::TextEncoder) -> (r: String)
    ensures
        r@ == "text/plain; version=0.0.4"@,
{
    prometheus::Encoder::format_type(encoder).to_string()
}

/// A successfully rendered metrics page: the encoded payload as a full body,
/// and the content type to announce for it.
pub struct MetricsReply {
    /// The encoded metrics, held as one full buffer.
    pub body: Body,
    /// The content-type header value of the text exposition format.
    pub content_type: String,
}

/// A failed metrics render, as the handler reports it: a status code and the
/// encoder's message.
#[derive(Debug)]
pub struct HandlerError {
    /// The HTTP status to answer with.
    pub status: u16,
    /// The encoder's description of the failure.
    pub message: String,
}

/// The metrics registry wrapper: a handler that renders the registry's
/// current metrics as an HTTP reply.
pub struct Prometheus {
    registry: prometheus::Registry,
}

impl Prometheus {
    /// The registry this handler renders.
    pub closed spec fn spec_registry(self) -> prometheus::Registry {
        self.registry
    }

    /// Creates a new handler over the given registry.
    pub fn new(registry: prometheus::Registry) -> (r: Self)
        ensures
            r.spec_registry() == registry,
    {
        Prometheus { registry }
    }

    /// Renders the registry's current metrics: gathers a snapshot, encodes
    /// it in the text exposition format, and either answers with a full body
    /// over the encoded bytes and the format's content type, or reports the
    /// encoding failure as an internal server error.
    pub fn call(&self) -> (r: Result<MetricsReply, HandlerError>)
        ensures
            r matches Ok(reply) ==> reply.body.kind() == BodyKind::Full
                && reply.body.steps().len() == 1 && reply.body.steps()[0] is Data
                && reply.content_type@ == "text/plain; version=0.0.4"@,
            r matches Err(e) ==> e.status == 500,
    {
        let families = gather_families(&self.registry);
        let encoder = new_text_encoder();
        match encode_families(&encoder, &families) {
            Ok(buffer) => Ok(
                MetricsReply {
                    body: Body::full(buffer),
                    content_type: encoder_format_type(&encoder),
                },
            ),
            Err(e) => Err(
                HandlerError { status: 500, message: prometheus_error_message(&e) },
            ),
        }
    }
}

} // verus!

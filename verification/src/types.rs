//! The requests that the transport hands in and the responses that it sends
//! out, as plain values.

use vstd::prelude::*;
use vstd::string::*;

verus! {

#[derive(Debug)]
pub struct HealthResponse {
    pub status: String,
}

#[derive(Debug)]
pub struct ModelInfoResponse {
    pub name: String,
    pub status: String,
    pub engine_kind: String,
}

#[derive(Debug)]
pub struct LoadModelRequest {
    pub model_name: String,
}

#[derive(Debug)]
pub struct LoadModelResponse {
    pub model_name: String,
    pub status: String,
    pub message: String,
}

#[derive(Debug)]
pub struct InferRequest {
    pub model_name: String,
    pub prompt: String,
}

#[derive(Debug)]
pub struct InferResponse {
    pub model_name: String,
    pub output: String,
}

impl Clone for HealthResponse {
    fn clone(&self) -> (r: Self)
        ensures
            r == *self,
    {
        HealthResponse { status: self.status.clone() }
    }
}

impl Clone for ModelInfoResponse {
    fn clone(&self) -> (r: Self)
        ensures
            r == *self,
    {
        ModelInfoResponse {
            name: self.name.clone(),
            status: self.status.clone(),
            engine_kind: self.engine_kind.clone(),
        }
    }
}

impl Clone for LoadModelRequest {
    fn clone(&self) -> (r: Self)
        ensures
            r == *self,
    {
        LoadModelRequest { model_name: self.model_name.clone() }
    }
}

impl Clone for LoadModelResponse {
    fn clone(&self) -> (r: Self)
        ensures
            r == *self,
    {
        LoadModelResponse {
            model_name: self.model_name.clone(),
            status: self.status.clone(),
            message: self.message.clone(),
        }
    }
}

impl Clone for InferRequest {
    fn clone(&self) -> (r: Self)
        ensures
            r == *self,
    {
        InferRequest { model_name: self.model_name.clone(), prompt: self.prompt.clone() }
    }
}

impl Clone for InferResponse {
    fn clone(&self) -> (r: Self)
        ensures
            r == *self,
    {
        InferResponse { model_name: self.model_name.clone(), output: self.output.clone() }
    }
}

} // verus!

use vstd::prelude::*;
use vstd::std_specs::convert::FromSpecImpl;
use vstd::std_specs::convert::TryFromSpecImpl;

verus! {

/// A UUID as its two 64-bit halves.
#[derive(Debug, Clone, Copy, PartialEq, Eq, Structural)]
pub struct Uuid {
    pub lsb: u64,
    pub msb: u64,
}

/// Why a work-queue message could not be read.
#[derive(Debug, Clone, Copy, PartialEq, Eq)]
pub enum PluginWorkQueueDeserializationError {
    /// A field the message needs is missing.
    MissingRequiredField(&'static str),
    /// A field that must hold something is empty.
    EmptyField(&'static str),
}

// ---------------------------------------------------------------------------
// Wire messages

pub struct ExecutionJobProto {
    pub tenant_id: Option<Uuid>,
    pub plugin_id: Option<Uuid>,
    pub data: Vec<u8>,
}

pub struct AcknowledgeRequestProto {
    pub request_id: Option<Uuid>,
}

pub struct AcknowledgeResponseProto {}

pub struct GetExecuteAnalyzerRequestProto {}

pub struct GetExecuteAnalyzerResponseProto {
    pub execution_job: Option<ExecutionJobProto>,
    pub request_id: Option<Uuid>,
}

pub struct GetExecuteGeneratorRequestProto {}

pub struct GetExecuteGeneratorResponseProto {
    pub execution_job: Option<ExecutionJobProto>,
    pub request_id: Option<Uuid>,
}

pub struct PutExecuteAnalyzerRequestProto {
    pub execution_job: Option<ExecutionJobProto>,
}

pub struct PutExecuteAnalyzerResponseProto {}

pub struct PutExecuteGeneratorRequestProto {
    pub execution_job: Option<ExecutionJobProto>,
}

pub struct PutExecuteGeneratorResponseProto {}

// ---------------------------------------------------------------------------
// Checked messages

/// A job for a plugin: whose, which plugin, and its input, which is never empty.
pub struct ExecutionJob {
    tenant_id: Uuid,
    plugin_id: Uuid,
    data: Vec<u8>,
}

impl ExecutionJob {
    #[verifier::type_invariant]
    spec fn data_not_empty(self) -> bool {
        self.data@.len() > 0
    }

    pub closed spec fn tenant(self) -> Uuid {
        self.tenant_id
    }

    pub closed spec fn plugin(self) -> Uuid {
        self.plugin_id
    }

    pub closed spec fn payload(self) -> Vec<u8> {
        self.data
    }

    pub fn tenant_id(&self) -> (r: Uuid)
        ensures
            r == self.tenant(),
    {
        self.tenant_id
    }

    pub fn plugin_id(&self) -> (r: Uuid)
        ensures
            r == self.plugin(),
    {
        self.plugin_id
    }

    pub fn data(&self) -> (r: &Vec<u8>)
        ensures
            *r == self.payload(),
    {
        &self.data
    }
}

/// What reading a job message yields.
pub open spec fn execution_job_of(v: ExecutionJobProto) -> Result<(Uuid, Uuid, Vec<u8>), PluginWorkQueueDeserializationError> {
    if v.tenant_id is None {
        Err(PluginWorkQueueDeserializationError::MissingRequiredField("ExecutionJob.tenant_id"))
    } else if v.plugin_id is None {
        Err(PluginWorkQueueDeserializationError::MissingRequiredField("ExecutionJob.plugin_id"))
    } else if v.data@.len() == 0 {
        Err(PluginWorkQueueDeserializationError::EmptyField("ExecutionJob.data"))
    } else {
        Ok((v.tenant_id->0, v.plugin_id->0, v.data))
    }
}

/// The message a job is written as.
pub open spec fn job_proto_of(j: ExecutionJob) -> ExecutionJobProto {
    ExecutionJobProto { tenant_id: Some(j.tenant()), plugin_id: Some(j.plugin()), data: j.payload() }
}

pub open spec fn job_fields(j: ExecutionJob) -> (Uuid, Uuid, Vec<u8>) {
    (j.tenant(), j.plugin(), j.payload())
}

/// A job result seen as its fields.
pub open spec fn job_result_view(r: Result<ExecutionJob, PluginWorkQueueDeserializationError>) -> Result<(Uuid, Uuid, Vec<u8>), PluginWorkQueueDeserializationError> {
    match r {
        Ok(j) => Ok(job_fields(j)),
        Err(e) => Err(e),
    }
}

impl ExecutionJob {
    /// Reads a job message: both ids must be present and the data not empty.
    pub fn from_proto(value: ExecutionJobProto) -> (r: Result<ExecutionJob, PluginWorkQueueDeserializationError>)
        ensures
            job_result_view(r) == execution_job_of(value),
    {
        let tenant_id = match value.tenant_id {
            Some(t) => t,
            None => return Err(PluginWorkQueueDeserializationError::MissingRequiredField("ExecutionJob.tenant_id")),
        };
        let plugin_id = match value.plugin_id {
            Some(p) => p,
            None => return Err(PluginWorkQueueDeserializationError::MissingRequiredField("ExecutionJob.plugin_id")),
        };
        let data = value.data;
        if data.len() == 0 {
            return Err(PluginWorkQueueDeserializationError::EmptyField("ExecutionJob.data"));
        }
        Ok(ExecutionJob { tenant_id, plugin_id, data })
    }

    /// Writes the job as a message.
    pub fn into_proto(self) -> (r: ExecutionJobProto)
        ensures
            r.tenant_id == Some(self.tenant()),
            r.plugin_id == Some(self.plugin()),
            r.data == self.payload(),
            r.data@.len() > 0,
    {
        proof {
            use_type_invariant(&self);
        }
        let ExecutionJob { tenant_id, plugin_id, data } = self;
        ExecutionJobProto { tenant_id: Some(tenant_id), plugin_id: Some(plugin_id), data }
    }
}

/// A job written as a message reads back as the same job.
pub proof fn lemma_job_roundtrip(j: ExecutionJob)
    requires
        j.payload()@.len() > 0,
    ensures
        execution_job_of(job_proto_of(j)) == Ok::<(Uuid, Uuid, Vec<u8>), PluginWorkQueueDeserializationError>(job_fields(j)),
{
}

/// A message that reads as a job is the message that job is written as.
pub proof fn lemma_job_proto_roundtrip(p: ExecutionJobProto)
    ensures
        execution_job_of(p) matches Ok((t, q, d)) ==> p == (ExecutionJobProto { tenant_id: Some(t), plugin_id: Some(q), data: d }),
{
}

impl TryFrom<ExecutionJobProto> for ExecutionJob {
    type Error = PluginWorkQueueDeserializationError;

    fn try_from(value: ExecutionJobProto) -> (r: Result<ExecutionJob, PluginWorkQueueDeserializationError>)
        ensures
            job_result_view(r) == execution_job_of(value),
    {
        ExecutionJob::from_proto(value)
    }
}

impl TryFromSpecImpl<ExecutionJobProto> for ExecutionJob {
    open spec fn obeys_try_from_spec() -> bool {
        true
    }

    closed spec fn try_from_spec(v: ExecutionJobProto) -> Result<ExecutionJob, PluginWorkQueueDeserializationError> {
        match execution_job_of(v) {
            Ok((t, p, d)) => Ok(ExecutionJob { tenant_id: t, plugin_id: p, data: d }),
            Err(e) => Err(e),
        }
    }
}

impl From<ExecutionJob> for ExecutionJobProto {
    fn from(value: ExecutionJob) -> (r: ExecutionJobProto)
        ensures
            r.tenant_id == Some(value.tenant()),
            r.plugin_id == Some(value.plugin()),
            r.data == value.payload(),
            r.data@.len() > 0,
    {
        value.into_proto()
    }
}

impl FromSpecImpl<ExecutionJob> for ExecutionJobProto {
    open spec fn obeys_from_spec() -> bool {
        true
    }

    open spec fn from_spec(v: ExecutionJob) -> ExecutionJobProto {
        job_proto_of(v)
    }
}

/// A message without fields.
pub struct AcknowledgeResponse {}

impl TryFrom<AcknowledgeResponseProto> for AcknowledgeResponse {
    type Error = PluginWorkQueueDeserializationError;

    fn try_from(_value: AcknowledgeResponseProto) -> (r: Result<AcknowledgeResponse, PluginWorkQueueDeserializationError>)
        ensures
            r is Ok,
    {
        Ok(AcknowledgeResponse {})
    }
}

impl TryFromSpecImpl<AcknowledgeResponseProto> for AcknowledgeResponse {
    open spec fn obeys_try_from_spec() -> bool {
        true
    }

    open spec fn try_from_spec(v: AcknowledgeResponseProto) -> Result<AcknowledgeResponse, PluginWorkQueueDeserializationError> {
        Ok(AcknowledgeResponse {})
    }
}

impl From<AcknowledgeResponse> for AcknowledgeResponseProto {
    fn from(_value: AcknowledgeResponse) -> (r: AcknowledgeResponseProto) {
        AcknowledgeResponseProto {}
    }
}

impl FromSpecImpl<AcknowledgeResponse> for AcknowledgeResponseProto {
    open spec fn obeys_from_spec() -> bool {
        true
    }

    open spec fn from_spec(v: AcknowledgeResponse) -> AcknowledgeResponseProto {
        AcknowledgeResponseProto {}
    }
}

/// A message without fields.
pub struct GetExecuteAnalyzerRequest {}

impl TryFrom<GetExecuteAnalyzerRequestProto> for GetExecuteAnalyzerRequest {
    type Error = PluginWorkQueueDeserializationError;

    fn try_from(_value: GetExecuteAnalyzerRequestProto) -> (r: Result<GetExecuteAnalyzerRequest, PluginWorkQueueDeserializationError>)
        ensures
            r is Ok,
    {
        Ok(GetExecuteAnalyzerRequest {})
    }
}

impl TryFromSpecImpl<GetExecuteAnalyzerRequestProto> for GetExecuteAnalyzerRequest {
    open spec fn obeys_try_from_spec() -> bool {
        true
    }

    open spec fn try_from_spec(v: GetExecuteAnalyzerRequestProto) -> Result<GetExecuteAnalyzerRequest, PluginWorkQueueDeserializationError> {
        Ok(GetExecuteAnalyzerRequest {})
    }
}

impl From<GetExecuteAnalyzerRequest> for GetExecuteAnalyzerRequestProto {
    fn from(_value: GetExecuteAnalyzerRequest) -> (r: GetExecuteAnalyzerRequestProto) {
        GetExecuteAnalyzerRequestProto {}
    }
}

impl FromSpecImpl<GetExecuteAnalyzerRequest> for GetExecuteAnalyzerRequestProto {
    open spec fn obeys_from_spec() -> bool {
        true
    }

    open spec fn from_spec(v: GetExecuteAnalyzerRequest) -> GetExecuteAnalyzerRequestProto {
        GetExecuteAnalyzerRequestProto {}
    }
}

/// A message without fields.
pub struct GetExecuteGeneratorRequest {}

impl TryFrom<GetExecuteGeneratorRequestProto> for GetExecuteGeneratorRequest {
    type Error = PluginWorkQueueDeserializationError;

    fn try_from(_value: GetExecuteGeneratorRequestProto) -> (r: Result<GetExecuteGeneratorRequest, PluginWorkQueueDeserializationError>)
        ensures
            r is Ok,
    {
        Ok(GetExecuteGeneratorRequest {})
    }
}

impl TryFromSpecImpl<GetExecuteGeneratorRequestProto> for GetExecuteGeneratorRequest {
    open spec fn obeys_try_from_spec() -> bool {
        true
    }

    open spec fn try_from_spec(v: GetExecuteGeneratorRequestProto) -> Result<GetExecuteGeneratorRequest, PluginWorkQueueDeserializationError> {
        Ok(GetExecuteGeneratorRequest {})
    }
}

impl From<GetExecuteGeneratorRequest> for GetExecuteGeneratorRequestProto {
    fn from(_value: GetExecuteGeneratorRequest) -> (r: GetExecuteGeneratorRequestProto) {
        GetExecuteGeneratorRequestProto {}
    }
}

impl FromSpecImpl<GetExecuteGeneratorRequest> for GetExecuteGeneratorRequestProto {
    open spec fn obeys_from_spec() -> bool {
        true
    }

    open spec fn from_spec(v: GetExecuteGeneratorRequest) -> GetExecuteGeneratorRequestProto {
        GetExecuteGeneratorRequestProto {}
    }
}

/// A message without fields.
pub struct PutExecuteAnalyzerResponse {}

impl TryFrom<PutExecuteAnalyzerResponseProto> for PutExecuteAnalyzerResponse {
    type Error = PluginWorkQueueDeserializationError;

    fn try_from(_value: PutExecuteAnalyzerResponseProto) -> (r: Result<PutExecuteAnalyzerResponse, PluginWorkQueueDeserializationError>)
        ensures
            r is Ok,
    {
        Ok(PutExecuteAnalyzerResponse {})
    }
}

impl TryFromSpecImpl<PutExecuteAnalyzerResponseProto> for PutExecuteAnalyzerResponse {
    open spec fn obeys_try_from_spec() -> bool {
        true
    }

    open spec fn try_from_spec(v: PutExecuteAnalyzerResponseProto) -> Result<PutExecuteAnalyzerResponse, PluginWorkQueueDeserializationError> {
        Ok(PutExecuteAnalyzerResponse {})
    }
}

impl From<PutExecuteAnalyzerResponse> for PutExecuteAnalyzerResponseProto {
    fn from(_value: PutExecuteAnalyzerResponse) -> (r: PutExecuteAnalyzerResponseProto) {
        PutExecuteAnalyzerResponseProto {}
    }
}

impl FromSpecImpl<PutExecuteAnalyzerResponse> for PutExecuteAnalyzerResponseProto {
    open spec fn obeys_from_spec() -> bool {
        true
    }

    open spec fn from_spec(v: PutExecuteAnalyzerResponse) -> PutExecuteAnalyzerResponseProto {
        PutExecuteAnalyzerResponseProto {}
    }
}

/// A message without fields.
pub struct PutExecuteGeneratorResponse {}

impl TryFrom<PutExecuteGeneratorResponseProto> for PutExecuteGeneratorResponse {
    type Error = PluginWorkQueueDeserializationError;

    fn try_from(_value: PutExecuteGeneratorResponseProto) -> (r: Result<PutExecuteGeneratorResponse, PluginWorkQueueDeserializationError>)
        ensures
            r is Ok,
    {
        Ok(PutExecuteGeneratorResponse {})
    }
}

impl TryFromSpecImpl<PutExecuteGeneratorResponseProto> for PutExecuteGeneratorResponse {
    open spec fn obeys_try_from_spec() -> bool {
        true
    }

    open spec fn try_from_spec(v: PutExecuteGeneratorResponseProto) -> Result<PutExecuteGeneratorResponse, PluginWorkQueueDeserializationError> {
        Ok(PutExecuteGeneratorResponse {})
    }
}

impl From<PutExecuteGeneratorResponse> for PutExecuteGeneratorResponseProto {
    fn from(_value: PutExecuteGeneratorResponse) -> (r: PutExecuteGeneratorResponseProto) {
        PutExecuteGeneratorResponseProto {}
    }
}

impl FromSpecImpl<PutExecuteGeneratorResponse> for PutExecuteGeneratorResponseProto {
    open spec fn obeys_from_spec() -> bool {
        true
    }

    open spec fn from_spec(v: PutExecuteGeneratorResponse) -> PutExecuteGeneratorResponseProto {
        PutExecuteGeneratorResponseProto {}
    }
}

/// Acknowledges the request with the given id.
pub struct AcknowledgeRequest {
    request_id: Uuid,
}

impl AcknowledgeRequest {
    pub closed spec fn request(self) -> Uuid {
        self.request_id
    }

    pub fn request_id(&self) -> (r: Uuid)
        ensures
            r == self.request(),
    {
        self.request_id
    }
}

impl TryFrom<AcknowledgeRequestProto> for AcknowledgeRequest {
    type Error = PluginWorkQueueDeserializationError;

    /// Reads the message; the request id must be present.
    fn try_from(value: AcknowledgeRequestProto) -> (r: Result<AcknowledgeRequest, PluginWorkQueueDeserializationError>)
        ensures
            match value.request_id {
                Some(id) => r matches Ok(a) && a.request() == id,
                None => r == Err::<AcknowledgeRequest, PluginWorkQueueDeserializationError>(
                    PluginWorkQueueDeserializationError::MissingRequiredField("AcknowledgeRequest.request_id"),
                ),
            },
    {
        match value.request_id {
            Some(request_id) => Ok(AcknowledgeRequest { request_id }),
            None => Err(PluginWorkQueueDeserializationError::MissingRequiredField("AcknowledgeRequest.request_id")),
        }
    }
}

impl TryFromSpecImpl<AcknowledgeRequestProto> for AcknowledgeRequest {
    open spec fn obeys_try_from_spec() -> bool {
        true
    }

    closed spec fn try_from_spec(v: AcknowledgeRequestProto) -> Result<AcknowledgeRequest, PluginWorkQueueDeserializationError> {
        match v.request_id {
            Some(request_id) => Ok(AcknowledgeRequest { request_id }),
            None => Err(PluginWorkQueueDeserializationError::MissingRequiredField("AcknowledgeRequest.request_id")),
        }
    }
}

impl From<AcknowledgeRequest> for AcknowledgeRequestProto {
    fn from(value: AcknowledgeRequest) -> (r: AcknowledgeRequestProto)
        ensures
            r.request_id == Some(value.request()),
    {
        AcknowledgeRequestProto { request_id: Some(value.request_id) }
    }
}

impl FromSpecImpl<AcknowledgeRequest> for AcknowledgeRequestProto {
    open spec fn obeys_from_spec() -> bool {
        true
    }

    open spec fn from_spec(v: AcknowledgeRequest) -> AcknowledgeRequestProto {
        AcknowledgeRequestProto { request_id: Some(v.request()) }
    }
}

/// A job handed out for execution, with the id of the request it answers.
pub struct GetExecuteAnalyzerResponse {
    execution_job: ExecutionJob,
    request_id: Uuid,
}

impl GetExecuteAnalyzerResponse {
    pub closed spec fn job(self) -> ExecutionJob {
        self.execution_job
    }

    pub closed spec fn request(self) -> Uuid {
        self.request_id
    }

    pub fn execution_job(&self) -> (r: &ExecutionJob)
        ensures
            *r == self.job(),
    {
        &self.execution_job
    }

    pub fn request_id(&self) -> (r: Uuid)
        ensures
            r == self.request(),
    {
        self.request_id
    }
}

impl TryFrom<GetExecuteAnalyzerResponseProto> for GetExecuteAnalyzerResponse {
    type Error = PluginWorkQueueDeserializationError;

    /// Reads the message: the request id and the job must be present, and the
    /// job must read.
    fn try_from(value: GetExecuteAnalyzerResponseProto) -> (r: Result<GetExecuteAnalyzerResponse, PluginWorkQueueDeserializationError>)
        ensures
            match (value.request_id, value.execution_job) {
                (None, _) => r == Err::<GetExecuteAnalyzerResponse, PluginWorkQueueDeserializationError>(
                    PluginWorkQueueDeserializationError::MissingRequiredField("GetExecuteAnalyzerResponse.request_id"),
                ),
                (Some(_), None) => r == Err::<GetExecuteAnalyzerResponse, PluginWorkQueueDeserializationError>(
                    PluginWorkQueueDeserializationError::MissingRequiredField("GetExecuteAnalyzerResponse.execution_job"),
                ),
                (Some(id), Some(job)) => match execution_job_of(job) {
                    Err(e) => r == Err::<GetExecuteAnalyzerResponse, PluginWorkQueueDeserializationError>(e),
                    Ok(fields) => r matches Ok(resp) && resp.request() == id && job_fields(resp.job()) == fields,
                },
            },
    {
        let request_id = match value.request_id {
            Some(id) => id,
            None => return Err(PluginWorkQueueDeserializationError::MissingRequiredField("GetExecuteAnalyzerResponse.request_id")),
        };
        let job = match value.execution_job {
            Some(job) => job,
            None => return Err(PluginWorkQueueDeserializationError::MissingRequiredField("GetExecuteAnalyzerResponse.execution_job")),
        };
        match ExecutionJob::from_proto(job) {
            Ok(execution_job) => Ok(GetExecuteAnalyzerResponse { request_id, execution_job }),
            Err(e) => Err(e),
        }
    }
}

impl TryFromSpecImpl<GetExecuteAnalyzerResponseProto> for GetExecuteAnalyzerResponse {
    open spec fn obeys_try_from_spec() -> bool {
        true
    }

    closed spec fn try_from_spec(v: GetExecuteAnalyzerResponseProto) -> Result<GetExecuteAnalyzerResponse, PluginWorkQueueDeserializationError> {
        match (v.request_id, v.execution_job) {
            (None, _) => Err(PluginWorkQueueDeserializationError::MissingRequiredField("GetExecuteAnalyzerResponse.request_id")),
            (Some(_), None) => Err(PluginWorkQueueDeserializationError::MissingRequiredField("GetExecuteAnalyzerResponse.execution_job")),
            (Some(id), Some(job)) => match execution_job_of(job) {
                Err(e) => Err(e),
                Ok((t, p, d)) => Ok(GetExecuteAnalyzerResponse {
                    request_id: id,
                    execution_job: ExecutionJob { tenant_id: t, plugin_id: p, data: d },
                }),
            },
        }
    }
}

impl From<GetExecuteAnalyzerResponse> for GetExecuteAnalyzerResponseProto {
    fn from(value: GetExecuteAnalyzerResponse) -> (r: GetExecuteAnalyzerResponseProto)
        ensures
            r.request_id == Some(value.request()),
            r.execution_job matches Some(j) && j == job_proto_of(value.job()),
    {
        let GetExecuteAnalyzerResponse { execution_job, request_id } = value;
        GetExecuteAnalyzerResponseProto { execution_job: Some(ExecutionJobProto::from(execution_job)), request_id: Some(request_id) }
    }
}

impl FromSpecImpl<GetExecuteAnalyzerResponse> for GetExecuteAnalyzerResponseProto {
    open spec fn obeys_from_spec() -> bool {
        true
    }

    open spec fn from_spec(v: GetExecuteAnalyzerResponse) -> GetExecuteAnalyzerResponseProto {
        GetExecuteAnalyzerResponseProto { execution_job: Some(job_proto_of(v.job())), request_id: Some(v.request()) }
    }
}

/// A job put on the queue for execution.
pub struct PutExecuteAnalyzerRequest {
    execution_job: ExecutionJob,
}

impl PutExecuteAnalyzerRequest {
    pub closed spec fn job(self) -> ExecutionJob {
        self.execution_job
    }

    pub fn execution_job(&self) -> (r: &ExecutionJob)
        ensures
            *r == self.job(),
    {
        &self.execution_job
    }
}

impl TryFrom<PutExecuteAnalyzerRequestProto> for PutExecuteAnalyzerRequest {
    type Error = PluginWorkQueueDeserializationError;

    /// Reads the message: the job must be present and must read.
    fn try_from(value: PutExecuteAnalyzerRequestProto) -> (r: Result<PutExecuteAnalyzerRequest, PluginWorkQueueDeserializationError>)
        ensures
            match value.execution_job {
                None => r == Err::<PutExecuteAnalyzerRequest, PluginWorkQueueDeserializationError>(
                    PluginWorkQueueDeserializationError::MissingRequiredField("PutExecuteAnalyzerRequest.execution_job"),
                ),
                Some(job) => match execution_job_of(job) {
                    Err(e) => r == Err::<PutExecuteAnalyzerRequest, PluginWorkQueueDeserializationError>(e),
                    Ok(fields) => r matches Ok(req) && job_fields(req.job()) == fields,
                },
            },
    {
        let job = match value.execution_job {
            Some(job) => job,
            None => return Err(PluginWorkQueueDeserializationError::MissingRequiredField("PutExecuteAnalyzerRequest.execution_job")),
        };
        match ExecutionJob::from_proto(job) {
            Ok(execution_job) => Ok(PutExecuteAnalyzerRequest { execution_job }),
            Err(e) => Err(e),
        }
    }
}

impl TryFromSpecImpl<PutExecuteAnalyzerRequestProto> for PutExecuteAnalyzerRequest {
    open spec fn obeys_try_from_spec() -> bool {
        true
    }

    closed spec fn try_from_spec(v: PutExecuteAnalyzerRequestProto) -> Result<PutExecuteAnalyzerRequest, PluginWorkQueueDeserializationError> {
        match v.execution_job {
            None => Err(PluginWorkQueueDeserializationError::MissingRequiredField("PutExecuteAnalyzerRequest.execution_job")),
            Some(job) => match execution_job_of(job) {
                Err(e) => Err(e),
                Ok((t, p, d)) => Ok(PutExecuteAnalyzerRequest { execution_job: ExecutionJob { tenant_id: t, plugin_id: p, data: d } }),
            },
        }
    }
}

impl From<PutExecuteAnalyzerRequest> for PutExecuteAnalyzerRequestProto {
    fn from(value: PutExecuteAnalyzerRequest) -> (r: PutExecuteAnalyzerRequestProto)
        ensures
            r.execution_job matches Some(j) && j == job_proto_of(value.job()),
    {
        let PutExecuteAnalyzerRequest { execution_job } = value;
        PutExecuteAnalyzerRequestProto { execution_job: Some(ExecutionJobProto::from(execution_job)) }
    }
}

impl FromSpecImpl<PutExecuteAnalyzerRequest> for PutExecuteAnalyzerRequestProto {
    open spec fn obeys_from_spec() -> bool {
        true
    }

    open spec fn from_spec(v: PutExecuteAnalyzerRequest) -> PutExecuteAnalyzerRequestProto {
        PutExecuteAnalyzerRequestProto { execution_job: Some(job_proto_of(v.job())) }
    }
}

/// A job handed out for execution, with the id of the request it answers.
pub struct GetExecuteGeneratorResponse {
    execution_job: ExecutionJob,
    request_id: Uuid,
}

impl GetExecuteGeneratorResponse {
    pub closed spec fn job(self) -> ExecutionJob {
        self.execution_job
    }

    pub closed spec fn request(self) -> Uuid {
        self.request_id
    }

    pub fn execution_job(&self) -> (r: &ExecutionJob)
        ensures
            *r == self.job(),
    {
        &self.execution_job
    }

    pub fn request_id(&self) -> (r: Uuid)
        ensures
            r == self.request(),
    {
        self.request_id
    }
}

impl TryFrom<GetExecuteGeneratorResponseProto> for GetExecuteGeneratorResponse {
    type Error = PluginWorkQueueDeserializationError;

    /// Reads the message: the request id and the job must be present, and the
    /// job must read.
    fn try_from(value: GetExecuteGeneratorResponseProto) -> (r: Result<GetExecuteGeneratorResponse, PluginWorkQueueDeserializationError>)
        ensures
            match (value.request_id, value.execution_job) {
                (None, _) => r == Err::<GetExecuteGeneratorResponse, PluginWorkQueueDeserializationError>(
                    PluginWorkQueueDeserializationError::MissingRequiredField("GetExecuteGeneratorResponse.request_id"),
                ),
                (Some(_), None) => r == Err::<GetExecuteGeneratorResponse, PluginWorkQueueDeserializationError>(
                    PluginWorkQueueDeserializationError::MissingRequiredField("GetExecuteGeneratorResponse.execution_job"),
                ),
                (Some(id), Some(job)) => match execution_job_of(job) {
                    Err(e) => r == Err::<GetExecuteGeneratorResponse, PluginWorkQueueDeserializationError>(e),
                    Ok(fields) => r matches Ok(resp) && resp.request() == id && job_fields(resp.job()) == fields,
                },
            },
    {
        let request_id = match value.request_id {
            Some(id) => id,
            None => return Err(PluginWorkQueueDeserializationError::MissingRequiredField("GetExecuteGeneratorResponse.request_id")),
        };
        let job = match value.execution_job {
            Some(job) => job,
            None => return Err(PluginWorkQueueDeserializationError::MissingRequiredField("GetExecuteGeneratorResponse.execution_job")),
        };
        match ExecutionJob::from_proto(job) {
            Ok(execution_job) => Ok(GetExecuteGeneratorResponse { request_id, execution_job }),
            Err(e) => Err(e),
        }
    }
}

impl TryFromSpecImpl<GetExecuteGeneratorResponseProto> for GetExecuteGeneratorResponse {
    open spec fn obeys_try_from_spec() -> bool {
        true
    }

    closed spec fn try_from_spec(v: GetExecuteGeneratorResponseProto) -> Result<GetExecuteGeneratorResponse, PluginWorkQueueDeserializationError> {
        match (v.request_id, v.execution_job) {
            (None, _) => Err(PluginWorkQueueDeserializationError::MissingRequiredField("GetExecuteGeneratorResponse.request_id")),
            (Some(_), None) => Err(PluginWorkQueueDeserializationError::MissingRequiredField("GetExecuteGeneratorResponse.execution_job")),
            (Some(id), Some(job)) => match execution_job_of(job) {
                Err(e) => Err(e),
                Ok((t, p, d)) => Ok(GetExecuteGeneratorResponse {
                    request_id: id,
                    execution_job: ExecutionJob { tenant_id: t, plugin_id: p, data: d },
                }),
            },
        }
    }
}

impl From<GetExecuteGeneratorResponse> for GetExecuteGeneratorResponseProto {
    fn from(value: GetExecuteGeneratorResponse) -> (r: GetExecuteGeneratorResponseProto)
        ensures
            r.request_id == Some(value.request()),
            r.execution_job matches Some(j) && j == job_proto_of(value.job()),
    {
        let GetExecuteGeneratorResponse { execution_job, request_id } = value;
        GetExecuteGeneratorResponseProto { execution_job: Some(ExecutionJobProto::from(execution_job)), request_id: Some(request_id) }
    }
}

impl FromSpecImpl<GetExecuteGeneratorResponse> for GetExecuteGeneratorResponseProto {
    open spec fn obeys_from_spec() -> bool {
        true
    }

    open spec fn from_spec(v: GetExecuteGeneratorResponse) -> GetExecuteGeneratorResponseProto {
        GetExecuteGeneratorResponseProto { execution_job: Some(job_proto_of(v.job())), request_id: Some(v.request()) }
    }
}

/// A job put on the queue for execution.
pub struct PutExecuteGeneratorRequest {
    execution_job: ExecutionJob,
}

impl PutExecuteGeneratorRequest {
    pub closed spec fn job(self) -> ExecutionJob {
        self.execution_job
    }

    pub fn execution_job(&self) -> (r: &ExecutionJob)
        ensures
            *r == self.job(),
    {
        &self.execution_job
    }
}

impl TryFrom<PutExecuteGeneratorRequestProto> for PutExecuteGeneratorRequest {
    type Error = PluginWorkQueueDeserializationError;

    /// Reads the message: the job must be present and must read.
    fn try_from(value: PutExecuteGeneratorRequestProto) -> (r: Result<PutExecuteGeneratorRequest, PluginWorkQueueDeserializationError>)
        ensures
            match value.execution_job {
                None => r == Err::<PutExecuteGeneratorRequest, PluginWorkQueueDeserializationError>(
                    PluginWorkQueueDeserializationError::MissingRequiredField("PutExecuteGeneratorRequest.execution_job"),
                ),
                Some(job) => match execution_job_of(job) {
                    Err(e) => r == Err::<PutExecuteGeneratorRequest, PluginWorkQueueDeserializationError>(e),
                    Ok(fields) => r matches Ok(req) && job_fields(req.job()) == fields,
                },
            },
    {
        let job = match value.execution_job {
            Some(job) => job,
            None => return Err(PluginWorkQueueDeserializationError::MissingRequiredField("PutExecuteGeneratorRequest.execution_job")),
        };
        match ExecutionJob::from_proto(job) {
            Ok(execution_job) => Ok(PutExecuteGeneratorRequest { execution_job }),
            Err(e) => Err(e),
        }
    }
}

impl TryFromSpecImpl<PutExecuteGeneratorRequestProto> for PutExecuteGeneratorRequest {
    open spec fn obeys_try_from_spec() -> bool {
        true
    }

    closed spec fn try_from_spec(v: PutExecuteGeneratorRequestProto) -> Result<PutExecuteGeneratorRequest, PluginWorkQueueDeserializationError> {
        match v.execution_job {
            None => Err(PluginWorkQueueDeserializationError::MissingRequiredField("PutExecuteGeneratorRequest.execution_job")),
            Some(job) => match execution_job_of(job) {
                Err(e) => Err(e),
                Ok((t, p, d)) => Ok(PutExecuteGeneratorRequest { execution_job: ExecutionJob { tenant_id: t, plugin_id: p, data: d } }),
            },
        }
    }
}

impl From<PutExecuteGeneratorRequest> for PutExecuteGeneratorRequestProto {
    fn from(value: PutExecuteGeneratorRequest) -> (r: PutExecuteGeneratorRequestProto)
        ensures
            r.execution_job matches Some(j) && j == job_proto_of(value.job()),
    {
        let PutExecuteGeneratorRequest { execution_job } = value;
        PutExecuteGeneratorRequestProto { execution_job: Some(ExecutionJobProto::from(execution_job)) }
    }
}

impl FromSpecImpl<PutExecuteGeneratorRequest> for PutExecuteGeneratorRequestProto {
    open spec fn obeys_from_spec() -> bool {
        true
    }

    open spec fn from_spec(v: PutExecuteGeneratorRequest) -> PutExecuteGeneratorRequestProto {
        PutExecuteGeneratorRequestProto { execution_job: Some(job_proto_of(v.job())) }
    }
}

} // verus!

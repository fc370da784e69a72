use vstd::prelude::*;
use crate::error::OtaErr;

verus! {

/// One HTTP header of the check request.
pub struct HeaderJson {
    pub name: &'static str,
    pub value: &'static str,
}

/// Body of the check request.
#[derive(Debug, Clone)]
pub struct BodyJson {
    pub mac: String,
    pub version_name: String,
    pub version_min_id: u32,
    pub version_number: u32,
}

/// Firmware metadata carried by a check response.
#[derive(Debug, Clone, PartialEq)]
pub struct Data {
    pub version_number: u16,
    pub version_name: String,
    pub version_min_id: u16,
    pub download_id: u64,
    pub link: String,
    pub checksum: String,
}

/// A check response of the update server.
#[derive(Debug, Clone, PartialEq)]
pub struct ResponseOtaHc {
    pub success: bool,
    pub status_code: u16,
    pub data: Data,
}

impl Data {
    /// A field-by-field copy.
    pub fn duplicate(&self) -> (r: Self)
        ensures
            r == *self,
    {
        Data {
            version_number: self.version_number,
            version_name: self.version_name.clone(),
            version_min_id: self.version_min_id,
            download_id: self.download_id,
            link: self.link.clone(),
            checksum: self.checksum.clone(),
        }
    }

    pub open spec fn is_empty_record(&self) -> bool {
        &&& self.version_number == 0
        &&& self.version_name@ == Seq::<char>::empty()
        &&& self.version_min_id == 0
        &&& self.download_id == 0
        &&& self.link@ == Seq::<char>::empty()
        &&& self.checksum@ == Seq::<char>::empty()
    }
}

impl Default for Data {
    fn default() -> (r: Self)
        ensures
            r.is_empty_record(),
    {
        Data {
            version_number: 0,
            version_name: String::new(),
            version_min_id: 0,
            download_id: 0,
            link: String::new(),
            checksum: String::new(),
        }
    }
}

impl ResponseOtaHc {
    /// A field-by-field copy.
    pub fn duplicate(&self) -> (r: Self)
        ensures
            r == *self,
    {
        ResponseOtaHc { success: self.success, status_code: self.status_code, data: self.data.duplicate() }
    }
}

impl Default for ResponseOtaHc {
    fn default() -> (r: Self)
        ensures
            !r.success,
            r.status_code == 0,
            r.data.is_empty_record(),
    {
        ResponseOtaHc { success: false, status_code: 0, data: Data::default() }
    }
}

/// A successful transport outcome, tagged by the operation that produced it.
#[derive(Clone, PartialEq)]
pub enum TransportOut {
    ResponseRequest(ResponseOtaHc),
    ResponseLink,
    ResponseKeepAlive,
    ResponseSuppend,
}


/// The check request of the update server: where it goes, its API-key header, its
/// body, and the last response it received.
pub struct HttpClientJson {
    pub url: &'static str,
    pub headers: HeaderJson,
    pub body: BodyJson,
    pub response: ResponseOtaHc,
}

/// A request that the orchestrator hands to the transport.
pub enum TransportIn {
    CheckOtaHc(HttpClientJson),
    GetLink(String),
    KeepAlive,
    Suppend(Vec<i32>),
}

impl HttpClientJson {
    /// A request to `url` with the given header and body, and no response yet.
    pub fn new(url: &'static str, headers: HeaderJson, body: BodyJson) -> (r: Self)
        ensures
            r.url == url,
            r.headers == headers,
            r.body == body,
            !r.response.success,
            r.response.status_code == 0,
            r.response.data.is_empty_record(),
    {
        Self { url, headers, body, response: ResponseOtaHc::default() }
    }

    /// The default check request of this device.
    pub fn new_template() -> (r: Self)
        ensures
            r.url@ == "https://api.smarthome.lumi.com.vn/ota/check-update-ota"@,
            r.headers.name@ == "x-lumi-api-key"@,
            r.headers.value@ == "98CPB8ITIRGHVO3OJ5QT"@,
            r.body.mac@ == "14:c9:cf:17:af:8e"@,
            r.body.version_name@ == "1.0.1"@,
            r.body.version_min_id == 0,
            r.body.version_number == 1,
            !r.response.success,
            r.response.status_code == 0,
            r.response.data.is_empty_record(),
    {
        HttpClientJson {
            url: "https://api.smarthome.lumi.com.vn/ota/check-update-ota",
            headers: HeaderJson { name: "x-lumi-api-key", value: "98CPB8ITIRGHVO3OJ5QT" },
            body: BodyJson {
                mac: "14:c9:cf:17:af:8e".to_owned(),
                version_name: "1.0.1".to_owned(),
                version_min_id: 0,
                version_number: 1,
            },
            response: ResponseOtaHc::default(),
        }
    }

    /// Records the reply to the request: `reached` tells whether the server answered,
    /// `status_ok` whether its status was a success, `parsed` the response body when
    /// it parsed. No answer, a failure status or a body that does not parse is
    /// `HttpErr` and keeps the previous response.
    pub fn record_reply(&mut self, reached: bool, status_ok: bool, parsed: Option<ResponseOtaHc>) -> (r: Result<(), OtaErr>)
        ensures
            r == if reached && status_ok && parsed is Some {
                Ok::<(), OtaErr>(())
            } else {
                Err::<(), OtaErr>(OtaErr::HttpErr)
            },
            final(self).response == if reached && status_ok && parsed is Some {
                parsed->Some_0
            } else {
                old(self).response
            },
            final(self).url == old(self).url,
            final(self).headers == old(self).headers,
            final(self).body == old(self).body,
    {
        if !(reached && status_ok) {
            return Err(OtaErr::HttpErr);
        }
        match parsed {
            Some(response) => {
                self.response = response;
                Ok(())
            },
            None => Err(OtaErr::HttpErr),
        }
    }

    /// The transport outcome of the request: the stored response when it reports
    /// success, `HttpErr` otherwise.
    pub fn recv(&mut self) -> (r: Result<TransportOut, OtaErr>)
        ensures
            *final(self) == *old(self),
            r == if old(self).response.success {
                Ok::<TransportOut, OtaErr>(TransportOut::ResponseRequest(old(self).response))
            } else {
                Err::<TransportOut, OtaErr>(OtaErr::HttpErr)
            },
    {
        if self.response.success {
            Ok(TransportOut::ResponseRequest(self.response.duplicate()))
        } else {
            Err(OtaErr::HttpErr)
        }
    }
}

/// The outcome of a firmware fetch: `downloaded` tells whether the resource was
/// retrieved, `stored` whether it was written to the artifact file.
pub open spec fn fetch_outcome(downloaded: bool, stored: bool) -> Result<TransportOut, OtaErr> {
    if !downloaded {
        Err(OtaErr::DownloadErr)
    } else if !stored {
        Err(OtaErr::NotEnoughMemoryErr)
    } else {
        Ok(TransportOut::ResponseLink)
    }
}

/// The result that a firmware fetch reports on the transport channel.
pub fn fetch_result(downloaded: bool, stored: bool) -> (r: Result<TransportOut, OtaErr>)
    ensures
        r == fetch_outcome(downloaded, stored),
{
    if !downloaded {
        Err(OtaErr::DownloadErr)
    } else if !stored {
        Err(OtaErr::NotEnoughMemoryErr)
    } else {
        Ok(TransportOut::ResponseLink)
    }
}

/// An acknowledged publish: a keep-alive or a suspend request.
#[derive(Clone, Copy, PartialEq, Eq, Structural, Debug)]
pub enum AckRequest {
    KeepAlive,
    Suspend,
}

/// What the broker connection delivered while a publish waits for its acknowledgment.
#[derive(Clone, Copy, PartialEq, Eq, Structural, Debug)]
pub enum BrokerEvent {
    /// The publish completed (exactly-once delivery acknowledged).
    Completed,
    /// Any other packet, incoming or outgoing.
    Other,
    /// The connection failed.
    Failed,
}

/// The next step of an acknowledged publish after one broker event: `None` to keep
/// polling; otherwise the publish ends with this result, and on `Ok(Some(out))`
/// first reports `out` on the transport channel.
pub open spec fn ack_transition(request: AckRequest, ev: BrokerEvent) -> Option<Result<Option<TransportOut>, OtaErr>> {
    match ev {
        BrokerEvent::Completed => match request {
            AckRequest::KeepAlive => Some(Ok(Some(TransportOut::ResponseKeepAlive))),
            AckRequest::Suspend => Some(Ok(Some(TransportOut::ResponseSuppend))),
        },
        BrokerEvent::Other => None,
        BrokerEvent::Failed => match request {
            AckRequest::KeepAlive => Some(Err(OtaErr::MqttErr)),
            AckRequest::Suspend => Some(Err(OtaErr::MqttErr)),
        },
    }
}

/// Decides what an acknowledged publish does with one broker event: a completion is
/// reported, anything else is waited past, and a connection failure ends the publish
/// with `MqttErr`.
pub fn ack_step(request: AckRequest, ev: BrokerEvent) -> (r: Option<Result<Option<TransportOut>, OtaErr>>)
    ensures
        r == ack_transition(request, ev),
{
    match ev {
        BrokerEvent::Completed => match request {
            AckRequest::KeepAlive => Some(Ok(Some(TransportOut::ResponseKeepAlive))),
            AckRequest::Suspend => Some(Ok(Some(TransportOut::ResponseSuppend))),
        },
        BrokerEvent::Other => None,
        BrokerEvent::Failed => match request {
            AckRequest::KeepAlive => Some(Err(OtaErr::MqttErr)),
            AckRequest::Suspend => Some(Err(OtaErr::MqttErr)),
        },
    }
}

/// The payload of a suspend request: the low byte of each process identifier.
pub fn pid_bytes(pids: &Vec<i32>) -> (r: Vec<u8>)
    ensures
        r@.len() == pids@.len(),
        forall|i: int| 0 <= i < pids@.len() ==> r@[i] == #[verifier::truncate] (pids@[i] as u8),
{
    let mut r: Vec<u8> = Vec::new();
    let mut i: usize = 0;
    while i < pids.len()
        invariant
            i <= pids@.len(),
            r@.len() == i,
            forall|j: int| 0 <= j < i ==> r@[j] == #[verifier::truncate] (pids@[j] as u8),
        decreases pids@.len() - i,
    {
        r.push(#[verifier::truncate] (pids[i] as u8));
        i = i + 1;
    }
    r
}

} // verus!

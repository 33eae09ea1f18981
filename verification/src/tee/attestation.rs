//! Remote attestation: reports over an enclave's identity, evidence
//! carrying a report with its signature and certificate, and the checks a
//! remote party runs on that evidence.

use vstd::prelude::*;

verus! {

/// The size of an attestation quote in bytes.
pub const QUOTE_SIZE: usize = 432;

/// The size of an attestation report in bytes.
pub const REPORT_SIZE: usize = 384;

/// An attestation report over an enclave: its identity, measurement,
/// creation time and caller-chosen data.
#[derive(Debug, Clone)]
pub struct AttestationReport {
    pub enclave_id: u64,
    pub measurement: Vec<u8>,
    /// Seconds since the Unix epoch when the report was generated.
    pub timestamp: u64,
    pub user_data: Vec<u8>,
    pub cpu_svn: [u8; 16],
    pub isv_svn: [u8; 2],
}

/// A report together with its signature and certificate, handed to a
/// remote verifier.
#[derive(Debug, Clone)]
pub struct AttestationEvidence {
    pub report: AttestationReport,
    /// The 64-byte report signature.
    pub signature: Vec<u8>,
    /// The 512-byte enclave certificate.
    pub certificate: Vec<u8>,
}

/// A failure reported by an attestation operation.
#[derive(Debug)]
pub struct AttestationError {
    message: String,
}

impl AttestationError {
    /// Describe the error.
    pub fn message(&self) -> String {
        self.message.clone()
    }
}

/// Relies on std's `SystemTime::now`, `SystemTime::duration_since` against
/// `UNIX_EPOCH`, and `Duration::as_secs`: the seconds since the Unix epoch,
/// or `None` when the clock reads earlier than the epoch. Nothing is
/// promised of the value, which depends on the machine's clock.
#[verifier::external_body]
fn current_unix_secs() -> Option<u64> {
    match std::time::SystemTime::now().duration_since(std::time::UNIX_EPOCH) {
        Ok(duration) => Some(duration.as_secs()),
        Err(_) => None,
    }
}

impl AttestationReport {
    /// Generate a report for an enclave: a zero measurement and version
    /// fields, the caller's data, and the current time; fails when the
    /// clock reads earlier than the epoch.
    pub fn generate(enclave_id: u64, user_data: &[u8]) -> (r: Result<Self, AttestationError>)
        ensures
            r matches Ok(report) ==> {
                &&& report.enclave_id == enclave_id
                &&& report.measurement@ == Seq::new(32, |i: int| 0u8)
                &&& report.user_data@ == user_data@
                &&& report.cpu_svn@ == Seq::new(16, |i: int| 0u8)
                &&& report.isv_svn@ == Seq::new(2, |i: int| 0u8)
            },
    {
        let timestamp = match current_unix_secs() {
            Some(timestamp) => timestamp,
            None => {
                return Err(AttestationError { message: "Clock before epoch".to_string() });
            },
        };
        let measurement = vec![0u8; 32];
        let cpu_svn: [u8; 16] = [0u8; 16];
        let isv_svn: [u8; 2] = [0u8; 2];
        proof {
            assert(measurement@ =~= Seq::new(32, |i: int| 0u8));
            vstd::array::axiom_spec_array_fill_for_copy_type::<u8, 16>(0u8);
            vstd::array::axiom_spec_array_fill_for_copy_type::<u8, 2>(0u8);
            assert(cpu_svn@ =~= Seq::new(16, |i: int| 0u8));
            assert(isv_svn@ =~= Seq::new(2, |i: int| 0u8));
        }
        Ok(AttestationReport {
            enclave_id,
            measurement,
            timestamp,
            user_data: vstd::slice::slice_to_vec(user_data),
            cpu_svn,
            isv_svn,
        })
    }
}

impl AttestationEvidence {
    /// Check the evidence: it fails exactly when the report's measurement
    /// or the signature is empty, and otherwise reports validity.
    pub fn verify(&self) -> (r: Result<bool, AttestationError>)
        ensures
            r is Err <==> (self.report.measurement@.len() == 0 || self.signature@.len() == 0),
            r matches Ok(valid) ==> valid,
    {
        if self.report.measurement.is_empty() {
            return Err(AttestationError { message: "Invalid measurement".to_string() });
        }
        if self.signature.is_empty() {
            return Err(AttestationError { message: "Invalid signature".to_string() });
        }
        Ok(true)
    }
}

/// The remote attestation service: report creation, evidence assembly and
/// evidence checking.
#[derive(Debug)]
pub struct RemoteAttestation;

impl RemoteAttestation {
    /// A fresh attestation service.
    pub fn new() -> Self {
        RemoteAttestation
    }

    /// Create an attestation report for an enclave; fails when the clock
    /// reads earlier than the epoch.
    pub fn create_report(&self, enclave_id: u64, user_data: &[u8]) -> (r: Result<
        AttestationReport,
        AttestationError,
    >)
        ensures
            r matches Ok(report) ==> {
                &&& report.enclave_id == enclave_id
                &&& report.measurement@ == Seq::new(32, |i: int| 0u8)
                &&& report.user_data@ == user_data@
                &&& report.cpu_svn@ == Seq::new(16, |i: int| 0u8)
                &&& report.isv_svn@ == Seq::new(2, |i: int| 0u8)
            },
    {
        AttestationReport::generate(enclave_id, user_data)
    }

    /// Wrap a report into evidence with a zero signature and certificate.
    pub fn generate_evidence(&self, report: AttestationReport) -> (r: Result<
        AttestationEvidence,
        AttestationError,
    >)
        ensures
            r matches Ok(evidence) && evidence.report == report && evidence.signature@ == Seq::new(
                64,
                |i: int| 0u8,
            ) && evidence.certificate@ == Seq::new(512, |i: int| 0u8),
    {
        let signature = vec![0u8; 64];
        let certificate = vec![0u8; 512];
        proof {
            assert(signature@ =~= Seq::new(64, |i: int| 0u8));
            assert(certificate@ =~= Seq::new(512, |i: int| 0u8));
        }
        Ok(AttestationEvidence { report, signature, certificate })
    }

    /// Check evidence on behalf of a remote party.
    pub fn verify_evidence(&self, evidence: &AttestationEvidence) -> (r: Result<
        bool,
        AttestationError,
    >)
        ensures
            r is Err <==> (evidence.report.measurement@.len() == 0 || evidence.signature@.len()
                == 0),
            r matches Ok(valid) ==> valid,
    {
        evidence.verify()
    }
}

/// The group identifier used for anonymous attestation; all zeros in the
/// simulated platform.
pub fn generate_epid_group_id() -> (id: [u8; 32])
    ensures
        id@ == Seq::new(32, |i: int| 0u8),
{
    let id: [u8; 32] = [0u8; 32];
    proof {
        vstd::array::axiom_spec_array_fill_for_copy_type::<u8, 32>(0u8);
        assert(id@ =~= Seq::new(32, |i: int| 0u8));
    }
    id
}

/// Check platform information returned by the attestation service; the
/// simulated platform accepts everything.
pub fn verify_platform_info(info: &[u8]) -> (r: bool)
    ensures
        r,
{
    true
}

} // verus!

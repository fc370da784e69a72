use vstd::prelude::*;
use crate::logic::{HcType, OtaLogic, OtaLogicIn, OtaLogicOut};
use crate::mqtt::ResponseMqtt;
use crate::transport::{HttpClientJson, TransportIn};

verus! {

/// Failure of the orchestrating loop.
#[derive(Debug, Clone, Copy, PartialEq, Eq, Structural)]
pub enum SystemIntergrationErr {
    TranSportErr,
}

/// Memory margin, total less used, under which the busiest processes are suspended.
pub const MEMORY_MARGIN_THRESHOLD: u64 = 55000;

/// How the orchestrator carries out one action of the queue.
pub enum Step {
    /// Hand this request to the transport.
    Send(TransportIn),
    /// Apply the verified artifact with the procedure of this hardware class.
    Apply(HcType),
    /// Sign, append and verify the downloaded artifact.
    Verify,
    /// Read the stored version record and compare it with the server's.
    CompareVersion,
    /// Sample the process table and memory, and ask to suspend the busiest processes.
    ProbeResources,
}

/// The way of carrying out `action` in a state whose pending link is `link`.
pub open spec fn planned(action: OtaLogicOut, link: Seq<char>, step: Step) -> bool {
    match action {
        OtaLogicOut::CheckOtaEvent => match step {
            Step::Send(TransportIn::CheckOtaHc(c)) => {
                &&& c.url@ == "https://api.smarthome.lumi.com.vn/ota/check-update-ota"@
                &&& c.headers.name@ == "x-lumi-api-key"@
                &&& c.headers.value@ == "98CPB8ITIRGHVO3OJ5QT"@
                &&& c.body.mac@ == "14:c9:cf:17:af:8e"@
                &&& c.body.version_name@ == "1.0.1"@
                &&& c.body.version_min_id == 0
                &&& c.body.version_number == 1
                &&& !c.response.success
                &&& c.response.status_code == 0
                &&& c.response.data.is_empty_record()
            },
            _ => false,
        },
        OtaLogicOut::UpdateOtaEvent(hc) => step == Step::Apply(hc),
        OtaLogicOut::CompareVersionEvent => step is CompareVersion,
        OtaLogicOut::VerifyEvent => step is Verify,
        OtaLogicOut::GetLinkEvent => match step {
            Step::Send(TransportIn::GetLink(l)) => l@ == link,
            _ => false,
        },
        OtaLogicOut::KeepAliveEvent => match step {
            Step::Send(TransportIn::KeepAlive) => true,
            _ => false,
        },
        OtaLogicOut::SuppentEvent => step is ProbeResources,
    }
}

/// How to carry out `action`: a check sends the default check request, a link fetch
/// sends the pending link, a keep-alive sends a keep-alive; the other actions are
/// local steps.
pub fn plan(logic: &OtaLogic, action: OtaLogicOut) -> (r: Step)
    ensures
        planned(action, logic.hc.link@, r),
{
    match action {
        OtaLogicOut::CheckOtaEvent => Step::Send(TransportIn::CheckOtaHc(HttpClientJson::new_template())),
        OtaLogicOut::UpdateOtaEvent(hc) => Step::Apply(hc),
        OtaLogicOut::CompareVersionEvent => Step::CompareVersion,
        OtaLogicOut::VerifyEvent => Step::Verify,
        OtaLogicOut::GetLinkEvent => Step::Send(TransportIn::GetLink(logic.hc.link.clone())),
        OtaLogicOut::KeepAliveEvent => Step::Send(TransportIn::KeepAlive),
        OtaLogicOut::SuppentEvent => Step::ProbeResources,
    }
}

/// Applies a control-plane message: on the fleet-override topic, the payload `true`
/// sets the manual override and any other payload clears it; other topics change
/// nothing.
pub fn apply_control_message(logic: &mut OtaLogic, msg: &ResponseMqtt)
    ensures
        final(logic).hc.allow_ota == if msg.topic@ == "master/ota"@ {
            msg.message@ == "true"@
        } else {
            old(logic).hc.allow_ota
        },
        final(logic).outputs@ == old(logic).outputs@,
        final(logic).last_date_time == old(logic).last_date_time,
        final(logic).timeout == old(logic).timeout,
        final(logic).hc.link == old(logic).hc.link,
        final(logic).hc.version_name == old(logic).hc.version_name,
        final(logic).same_setup(old(logic)),
{
    if msg.topic == "master/ota".to_owned() {
        logic.hc.allow_ota = msg.message == "true".to_owned();
    }
}

/// Compares the stored version `record` with the version the server reported: when
/// they differ, a link fetch is pushed into the state machine.
pub fn compare_version(logic: &mut OtaLogic, record: &String)
    ensures
        final(logic).outputs@ == old(logic).outputs@ + if old(logic).hc.version_name@ == record@ {
            Seq::<OtaLogicOut>::empty()
        } else {
            seq![OtaLogicOut::GetLinkEvent]
        },
        final(logic).hc.allow_ota == old(logic).hc.allow_ota,
        final(logic).last_date_time == old(logic).last_date_time,
        final(logic).timeout == old(logic).timeout,
        final(logic).hc.link == old(logic).hc.link,
        final(logic).hc.version_name == old(logic).hc.version_name,
        final(logic).same_setup(old(logic)),
{
    if logic.hc.version_name != *record {
        logic.on_event(OtaLogicIn::Push(OtaLogicOut::GetLinkEvent));
    }
}

/// One sampled process: its identifier and its CPU use in hundredths of a percent.
#[derive(Debug, Clone, Copy, PartialEq, Eq, Structural)]
pub struct ProcessLoad {
    pub pid: i32,
    pub cpu_centi: u64,
}

/// Whether sample `i` ranks before sample `j`: more CPU use, or as much and sampled
/// earlier.
pub open spec fn ranks_before(loads: Seq<ProcessLoad>, i: int, j: int) -> bool {
    loads[i].cpu_centi > loads[j].cpu_centi || (loads[i].cpu_centi == loads[j].cpu_centi && i < j)
}

/// Sample `a` is the busiest of the first `n` samples.
pub open spec fn is_busiest(loads: Seq<ProcessLoad>, n: int, a: int) -> bool {
    &&& 0 <= a < n
    &&& forall|j: int| 0 <= j < n && j != a ==> ranks_before(loads, a, j)
}

/// Sample `b` is the second busiest of the first `n` samples, after `a`.
pub open spec fn is_second_busiest(loads: Seq<ProcessLoad>, n: int, a: int, b: int) -> bool {
    &&& 0 <= b < n
    &&& b != a
    &&& ranks_before(loads, a, b)
    &&& forall|j: int| 0 <= j < n && j != a && j != b ==> ranks_before(loads, b, j)
}

/// Whether the memory margin calls for suspending processes.
pub open spec fn memory_pressed(total_memory: u64, used_memory: u64) -> bool {
    total_memory - used_memory < MEMORY_MARGIN_THRESHOLD
}

/// The processes to suspend before an update: none (`None`) while the memory margin
/// is at or above the threshold; otherwise the identifiers of the busiest sample and
/// then of the second busiest, as far as there are samples.
pub fn select_suspend_targets(loads: &Vec<ProcessLoad>, total_memory: u64, used_memory: u64) -> (r: Option<Vec<i32>>)
    ensures
        r is Some <==> memory_pressed(total_memory, used_memory),
        r is Some ==> {
            let pids = r->Some_0@;
            let n = loads@.len() as int;
            &&& pids.len() == if n < 2 { n } else { 2 }
            &&& pids.len() >= 1 ==> exists|a: int| #[trigger] is_busiest(loads@, n, a) && pids[0] == loads@[a].pid
            &&& pids.len() >= 2 ==> exists|a: int, b: int|
                is_busiest(loads@, n, a) && #[trigger] is_second_busiest(loads@, n, a, b)
                && pids[0] == loads@[a].pid && pids[1] == loads@[b].pid
        },
{
    if !((total_memory as i128) - (used_memory as i128) < MEMORY_MARGIN_THRESHOLD as i128) {
        return None;
    }
    let mut pids: Vec<i32> = Vec::new();
    let n = loads.len();
    if n == 0 {
        return Some(pids);
    }
    let mut best: usize = 0;
    let mut second: usize = 0;
    let mut has_second = false;
    let mut i: usize = 1;
    while i < n
        invariant
            n == loads@.len(),
            1 <= i <= n,
            is_busiest(loads@, i as int, best as int),
            has_second <==> i >= 2,
            has_second ==> is_second_busiest(loads@, i as int, best as int, second as int),
        decreases n - i,
    {
        let ghost ob = best as int;
        let ghost os = second as int;
        let ghost oh = has_second;
        let c = loads[i].cpu_centi;
        if c > loads[best].cpu_centi {
            second = best;
            best = i;
            has_second = true;
        } else if !has_second || c > loads[second].cpu_centi {
            second = i;
            has_second = true;
        }
        proof {
            let ii = i as int;
            let l = loads@;
            assert forall|j: int| 0 <= j < ii + 1 && j != best as int implies ranks_before(l, best as int, j) by {
                if j < ii {
                    assert(ranks_before(l, ob, j) || j == ob);
                }
            }
            assert forall|j: int| 0 <= j < ii + 1 && j != best as int && j != second as int implies ranks_before(l, second as int, j) by {
                if j < ii && j != ob {
                    assert(ranks_before(l, ob, j));
                    if oh && j != os {
                        assert(ranks_before(l, os, j));
                    }
                }
            }
        }
        i = i + 1;
    }
    pids.push(loads[best].pid);
    if has_second {
        pids.push(loads[second].pid);
    }
    Some(pids)
}

} // verus!

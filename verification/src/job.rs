//! All jobs under one roof.
use crate::ask::{Next, NextModel, Reply, ReplyModel};
use crate::host::{Host, HostModel, Platform};
use crate::install::{install_next, InstallJob, InstallJobModel};
use crate::scan::{scan_next, ScanJob, ScanJobModel};
use crate::service::{
    service_next, task_next, unit_next, ServiceJob, ServiceJobModel, TaskJob, TaskJobModel, UnitJob,
    UnitJobModel,
};
use crate::troubleshoot::{ts_next, TsJob, TsJobModel};
use crate::upkeep::{
    reset_next, uninstall_next, update_next, wait_next, ResetJob, ResetJobModel, UninstallJob,
    UninstallJobModel, UpdateJob, UpdateJobModel, WaitJob, WaitJobModel,
};
use vstd::prelude::*;

verus! {

/// A job of any sort, at the point that it has reached.
#[derive(Debug, Clone)]
pub enum Job {
    Scan(ScanJob),
    Install(InstallJob),
    Uninstall(UninstallJob),
    Update(UpdateJob),
    Reset(ResetJob),
    Wait(WaitJob),
    Troubleshoot(TsJob),
    Service(ServiceJob),
    Unit(UnitJob),
    Task(TaskJob),
}

/// `Job` with its texts as character sequences.
#[verifier::ext_equal]
pub enum JobModel {
    Scan(ScanJobModel),
    Install(InstallJobModel),
    Uninstall(UninstallJobModel),
    Update(UpdateJobModel),
    Reset(ResetJobModel),
    Wait(WaitJobModel),
    Troubleshoot(TsJobModel),
    Service(ServiceJobModel),
    Unit(UnitJobModel),
    Task(TaskJobModel),
}

impl DeepView for Job {
    type V = JobModel;

    open spec fn deep_view(&self) -> JobModel {
        match self {
            Job::Scan(j) => JobModel::Scan(j.deep_view()),
            Job::Install(j) => JobModel::Install(j.deep_view()),
            Job::Uninstall(j) => JobModel::Uninstall(j.deep_view()),
            Job::Update(j) => JobModel::Update(j.deep_view()),
            Job::Reset(j) => JobModel::Reset(j.deep_view()),
            Job::Wait(j) => JobModel::Wait(j.deep_view()),
            Job::Troubleshoot(j) => JobModel::Troubleshoot(j.deep_view()),
            Job::Service(j) => JobModel::Service(j.deep_view()),
            Job::Unit(j) => JobModel::Unit(j.deep_view()),
            Job::Task(j) => JobModel::Task(j.deep_view()),
        }
    }
}

/// `next` with the job that waits put through `f`.
pub open spec fn carried<J>(next: NextModel<J>, f: spec_fn(J) -> JobModel) -> NextModel<JobModel> {
    match next {
        NextModel::Ask(request, job) => NextModel::Ask(request, f(job)),
        NextModel::Finish(message) => NextModel::Finish(message),
    }
}

/// How a job goes on with a reply.
pub open spec fn job_next(h: HostModel, job: JobModel, r: ReplyModel) -> NextModel<JobModel> {
    match job {
        JobModel::Scan(j) => carried(scan_next(h, j, r), |k: ScanJobModel| JobModel::Scan(k)),
        JobModel::Install(j) => carried(
            install_next(h, j, r),
            |k: InstallJobModel| JobModel::Install(k),
        ),
        JobModel::Uninstall(j) => carried(
            uninstall_next(h, j, r),
            |k: UninstallJobModel| JobModel::Uninstall(k),
        ),
        JobModel::Update(j) => carried(
            update_next(h, j, r),
            |k: UpdateJobModel| JobModel::Update(k),
        ),
        JobModel::Reset(j) => carried(reset_next(h, j, r), |k: ResetJobModel| JobModel::Reset(k)),
        JobModel::Wait(j) => carried(wait_next(j, r), |k: WaitJobModel| JobModel::Wait(k)),
        JobModel::Troubleshoot(j) => carried(
            ts_next(h, j, r),
            |k: TsJobModel| JobModel::Troubleshoot(k),
        ),
        JobModel::Service(j) => carried(
            service_next(h, j, r),
            |k: ServiceJobModel| JobModel::Service(k),
        ),
        JobModel::Unit(j) => carried(unit_next(h, j, r), |k: UnitJobModel| JobModel::Unit(k)),
        JobModel::Task(j) => carried(task_next(h, j, r), |k: TaskJobModel| JobModel::Task(k)),
    }
}

impl Job {
    /// Goes on with a reply. A job that has not asked for anything yet takes
    /// `Reply::Begin`.
    pub fn advance(self, host: &Host, reply: &Reply) -> (next: Next<Job>)
        ensures
            next.deep_view() == job_next(host.deep_view(), self.deep_view(), reply.deep_view()),
    {
        match self {
            Job::Scan(j) => match j.advance(host, reply) {
                Next::Ask(request, k) => Next::Ask(request, Job::Scan(k)),
                Next::Finish(message) => Next::Finish(message),
            },
            Job::Install(j) => match j.advance(host, reply) {
                Next::Ask(request, k) => Next::Ask(request, Job::Install(k)),
                Next::Finish(message) => Next::Finish(message),
            },
            Job::Uninstall(j) => match j.advance(host, reply) {
                Next::Ask(request, k) => Next::Ask(request, Job::Uninstall(k)),
                Next::Finish(message) => Next::Finish(message),
            },
            Job::Update(j) => match j.advance(host, reply) {
                Next::Ask(request, k) => Next::Ask(request, Job::Update(k)),
                Next::Finish(message) => Next::Finish(message),
            },
            Job::Reset(j) => match j.advance(host, reply) {
                Next::Ask(request, k) => Next::Ask(request, Job::Reset(k)),
                Next::Finish(message) => Next::Finish(message),
            },
            Job::Wait(j) => match j.advance(reply) {
                Next::Ask(request, k) => Next::Ask(request, Job::Wait(k)),
                Next::Finish(message) => Next::Finish(message),
            },
            Job::Troubleshoot(j) => match j.advance(host, reply) {
                Next::Ask(request, k) => Next::Ask(request, Job::Troubleshoot(k)),
                Next::Finish(message) => Next::Finish(message),
            },
            Job::Service(j) => match j.advance(host, reply) {
                Next::Ask(request, k) => Next::Ask(request, Job::Service(k)),
                Next::Finish(message) => Next::Finish(message),
            },
            Job::Unit(j) => match j.advance(host, reply) {
                Next::Ask(request, k) => Next::Ask(request, Job::Unit(k)),
                Next::Finish(message) => Next::Finish(message),
            },
            Job::Task(j) => match j.advance(host, reply) {
                Next::Ask(request, k) => Next::Ask(request, Job::Task(k)),
                Next::Finish(message) => Next::Finish(message),
            },
        }
    }
}

/// The job that installs the service: the unit on Linux, the logon task on
/// Windows.
pub open spec fn service_install(p: Platform, path: Seq<char>) -> JobModel {
    match p {
        Platform::Linux => JobModel::Unit(UnitJobModel::Install(path)),
        Platform::Windows => JobModel::Task(TaskJobModel::Install(path)),
    }
}

/// Makes the job that installs the service.
pub fn install_service(p: Platform, path: String) -> (job: Job)
    ensures
        job.deep_view() == service_install(p, path@),
{
    match p {
        Platform::Linux => Job::Unit(UnitJob::Install(path)),
        Platform::Windows => Job::Task(TaskJob::Install(path)),
    }
}

/// The job that removes the service.
pub open spec fn service_remove(p: Platform) -> JobModel {
    match p {
        Platform::Linux => JobModel::Unit(UnitJobModel::Remove),
        Platform::Windows => JobModel::Task(TaskJobModel::Remove),
    }
}

/// Makes the job that removes the service.
pub fn remove_service(p: Platform) -> (job: Job)
    ensures
        job.deep_view() == service_remove(p),
{
    match p {
        Platform::Linux => Job::Unit(UnitJob::Remove),
        Platform::Windows => Job::Task(TaskJob::Remove),
    }
}

} // verus!

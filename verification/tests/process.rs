use sis_preprocess::batch::{FileEvent, SourcePath};
use sis_preprocess::dispatch::{on_delivery, Delivery, Next, RunError};
use sis_preprocess::error::{DimensionError, FormatError, ProcessingError};
use sis_preprocess::od::LogTerm;
use sis_preprocess::process::{
    handle_events, plan_copy, CopyJob, FKSpecies, Identity, Processor, Work,
};
use sis_preprocess::sisimg::SisImg;

fn path(text: &str, name: &str) -> SourcePath {
    SourcePath::new(text, Some(name))
}

fn job(from: &str, dir: &str, name: &str) -> CopyJob {
    CopyJob { from: from.to_string(), dir: dir.to_string(), name: name.to_string() }
}

fn frame(height: usize, width: usize, samples: Vec<u16>) -> SisImg {
    SisImg::from_parts(height, width, samples).unwrap()
}

fn raw_batch() -> Vec<SourcePath> {
    vec![
        path("in/rawimg-0003.sis", "rawimg-0003.sis"),
        path("in/rawimg-0001.sis", "rawimg-0001.sis"),
        path("in/rawimg-0002.sis", "rawimg-0002.sis"),
    ]
}

#[test]
fn identity_copies_each_file_under_its_own_name() {
    let identity = Identity::new("out");
    let plan = identity.proc(&vec![path("in/f1.sis", "f1.sis"), path("in/sub/f2.sis", "f2.sis")]);
    assert_eq!(
        plan.jobs,
        vec![job("in/f1.sis", "out", "f1.sis"), job("in/sub/f2.sis", "out", "f2.sis")]
    );
    assert_eq!(plan.failure, None);
}

#[test]
fn identity_plans_nothing_for_an_empty_batch() {
    let plan = Identity::new("out").proc(&vec![]);
    assert!(plan.jobs.is_empty());
    assert_eq!(plan.failure, None);
}

#[test]
fn identity_stops_at_the_first_path_without_a_file_name() {
    let batch = vec![
        path("in/f1.sis", "f1.sis"),
        SourcePath::new("in/..", None),
        path("in/f3.sis", "f3.sis"),
        SourcePath::new("/", None),
    ];
    let plan = Identity::new("out").proc(&batch);
    assert_eq!(plan.jobs, vec![job("in/f1.sis", "out", "f1.sis")]);
    assert_eq!(plan.failure, Some(ProcessingError::NoFileName("in/..".to_string())));
}

#[test]
fn filecp_names_the_copy_after_the_file() {
    let identity = Identity::new("target");
    assert_eq!(
        identity.filecp(&path("a/b/c.sis", "c.sis")),
        Ok(job("a/b/c.sis", "target", "c.sis"))
    );
    assert_eq!(
        identity.filecp(&SourcePath::new("a/..", None)),
        Err(ProcessingError::NoFileName("a/..".to_string()))
    );
    assert_eq!(
        plan_copy(&"d".to_string(), &path("x", "y")),
        Ok(job("x", "d", "y"))
    );
}

#[test]
fn findpattern_takes_the_first_match() {
    let batch = vec![
        path("in/other.sis", "other.sis"),
        path("in/a-rawimg-0001.sis", "a-rawimg-0001.sis"),
        path("in/b-rawimg-0001.sis", "b-rawimg-0001.sis"),
    ];
    assert_eq!(FKSpecies::findpattern(&batch, "rawimg-0001"), Ok(batch[1].clone()));
    assert_eq!(FKSpecies::findpattern(&batch, "in/"), Ok(batch[0].clone()));
    assert_eq!(FKSpecies::findpattern(&batch, ""), Ok(batch[0].clone()));
    assert_eq!(FKSpecies::findpattern(&batch, "b-rawimg-0001.sis"), Ok(batch[2].clone()));
}

#[test]
fn findpattern_reads_the_path_not_the_file_name() {
    let batch = vec![SourcePath::new("rawimg-0001/x.sis", Some("x.sis"))];
    assert_eq!(FKSpecies::findpattern(&batch, "rawimg-0001"), Ok(batch[0].clone()));
    let batch = vec![SourcePath::new("x.sis", Some("rawimg-0001"))];
    assert_eq!(
        FKSpecies::findpattern(&batch, "rawimg-0001"),
        Err(ProcessingError::MissingPattern("rawimg-0001".to_string()))
    );
}

#[test]
fn findpattern_reports_the_pattern_that_is_missing() {
    assert_eq!(
        FKSpecies::findpattern(&raw_batch(), "rawimg-0004"),
        Err(ProcessingError::MissingPattern("rawimg-0004".to_string()))
    );
    assert_eq!(
        FKSpecies::findpattern(&vec![], ""),
        Err(ProcessingError::MissingPattern(String::new()))
    );
    assert_eq!(
        FKSpecies::findpattern(&vec![path("rawimg-000", "rawimg-000")], "rawimg-0001"),
        Err(ProcessingError::MissingPattern("rawimg-0001".to_string()))
    );
}

#[test]
fn optical_density_plan_selects_three_frames() {
    let plan = FKSpecies::new("out").proc(&raw_batch()).unwrap();
    assert_eq!(plan.atoms, job("in/rawimg-0001.sis", "out", "rawimg-0001.sis"));
    assert_eq!(plan.probe, job("in/rawimg-0002.sis", "out", "rawimg-0002.sis"));
    assert_eq!(plan.reference, job("in/rawimg-0003.sis", "out", "rawimg-0003.sis"));
    assert_eq!(plan.result_name, "20140000-img-0000.sis");
}

#[test]
fn optical_density_fails_without_the_third_frame() {
    let batch = vec![
        path("in/rawimg-0001.sis", "rawimg-0001.sis"),
        path("in/rawimg-0002.sis", "rawimg-0002.sis"),
    ];
    assert_eq!(
        FKSpecies::new("out").proc(&batch),
        Err(ProcessingError::MissingPattern("rawimg-0003".to_string()))
    );
}

#[test]
fn optical_density_reports_the_first_selection_that_fails() {
    let fk = FKSpecies::new("out");
    assert_eq!(
        fk.proc(&vec![]),
        Err(ProcessingError::MissingPattern("rawimg-0001".to_string()))
    );
    assert_eq!(
        fk.proc(&vec![path("rawimg-0001", "rawimg-0001"), path("rawimg-0003", "rawimg-0003")]),
        Err(ProcessingError::MissingPattern("rawimg-0002".to_string()))
    );
    let nameless = vec![
        SourcePath::new("rawimg-0001/..", None),
        path("in/rawimg-0003.sis", "rawimg-0003.sis"),
    ];
    assert_eq!(
        fk.proc(&nameless),
        Err(ProcessingError::NoFileName("rawimg-0001/..".to_string()))
    );
    assert_eq!(
        fk.select_frame(&nameless, "rawimg-0003"),
        Ok(job("in/rawimg-0003.sis", "out", "rawimg-0003.sis"))
    );
}

#[test]
fn terms_set_the_two_halves_against_each_other() {
    let atoms = frame(2, 2, vec![10, 20, 30, 40]);
    let probe = frame(2, 2, vec![100, 200, 300, 400]);
    let reference = frame(2, 2, vec![1, 2, 3, 50]);
    let reduced = FKSpecies::calc_od(&atoms, &probe, &reference).unwrap();
    assert_eq!((reduced.height, reduced.width), (2, 2));
    assert_eq!(
        reduced.terms,
        vec![
            LogTerm { minuend: 27, subtrahend: 9 },
            LogTerm { minuend: -10, subtrahend: 18 },
            LogTerm { minuend: 297, subtrahend: 99 },
            LogTerm { minuend: 350, subtrahend: 198 },
        ]
    );
}

#[test]
fn terms_hold_the_full_range_of_differences() {
    let atoms = frame(2, 1, vec![0, 65535]);
    let probe = frame(2, 1, vec![65535, 0]);
    let reference = frame(2, 1, vec![65535, 0]);
    let reduced = FKSpecies::calc_od(&atoms, &probe, &reference).unwrap();
    assert_eq!(
        reduced.terms,
        vec![
            LogTerm { minuend: 65535, subtrahend: -65535 },
            LogTerm { minuend: 0, subtrahend: 0 },
        ]
    );
}

#[test]
fn frames_of_different_shapes_are_not_reduced() {
    let a = frame(2, 2, vec![0; 4]);
    let b = frame(2, 2, vec![0; 4]);
    assert_eq!(
        FKSpecies::calc_od(&a, &b, &frame(4, 1, vec![0; 4])).unwrap_err(),
        DimensionError::FrameMismatch
    );
    assert_eq!(
        FKSpecies::calc_od(&a, &frame(1, 4, vec![0; 4]), &b).unwrap_err(),
        DimensionError::FrameMismatch
    );
    assert_eq!(
        FKSpecies::calc_od(&frame(2, 3, vec![0; 6]), &a, &b).unwrap_err(),
        DimensionError::FrameMismatch
    );
}

#[test]
fn frames_of_odd_height_are_not_reduced() {
    let a = frame(3, 2, vec![0; 6]);
    assert_eq!(FKSpecies::calc_od(&a, &a, &a).unwrap_err(), DimensionError::OddHeight);
    let one = frame(1, 1, vec![0]);
    assert_eq!(FKSpecies::calc_od(&one, &one, &one).unwrap_err(), DimensionError::OddHeight);
}

#[test]
fn frames_without_samples_reduce_to_no_terms() {
    let empty = frame(0, 7, vec![]);
    let reduced = FKSpecies::calc_od(&empty, &empty, &empty).unwrap();
    assert_eq!((reduced.height, reduced.width), (0, 7));
    assert!(reduced.terms.is_empty());
}

#[test]
fn flat_frames_reduce_to_the_rescaled_zero() {
    let atoms = frame(4, 4, vec![2000; 16]).write();
    let probe = frame(4, 4, vec![2000; 16]).write();
    let reference = frame(4, 4, vec![1000; 16]).write();
    let reduced = FKSpecies::reduce(&atoms, &probe, &reference).unwrap();
    assert_eq!((reduced.height, reduced.width), (4, 4));
    assert_eq!(reduced.terms, vec![LogTerm { minuend: 1000, subtrahend: 1000 }; 16]);

    let rescaled: Vec<u16> = reduced
        .terms
        .iter()
        .map(|t| {
            let od = (t.minuend as f32).ln() - (t.subtrahend as f32).ln();
            ((od + 1.0) * 1000.0) as u16
        })
        .collect();
    assert_eq!(rescaled, vec![1000u16; 16]);

    let result = SisImg::from_parts(reduced.height, reduced.width, rescaled).unwrap();
    let back = SisImg::read(&result.write()).unwrap();
    assert_eq!(*back.image(), vec![1000u16; 16]);

    let plan = FKSpecies::new("out").proc(&raw_batch()).unwrap();
    let copied: Vec<&str> =
        [&plan.atoms, &plan.probe, &plan.reference].iter().map(|j| j.name.as_str()).collect();
    assert_eq!(copied, vec!["rawimg-0001.sis", "rawimg-0002.sis", "rawimg-0003.sis"]);
    assert!(!copied.contains(&plan.result_name.as_str()));
}

#[test]
fn reduce_reports_the_first_stream_that_does_not_decode() {
    let good = frame(2, 1, vec![1, 2]).write();
    let headless: Vec<u8> = vec![0x20; 5];
    let cut = good[..201].to_vec();
    assert_eq!(
        FKSpecies::reduce(&headless, &cut, &good).unwrap_err(),
        ProcessingError::Format(FormatError::ShortHeader)
    );
    assert_eq!(
        FKSpecies::reduce(&cut, &headless, &good).unwrap_err(),
        ProcessingError::Format(FormatError::ShortSamples)
    );
    assert_eq!(
        FKSpecies::reduce(&good, &good, &cut).unwrap_err(),
        ProcessingError::Format(FormatError::ShortSamples)
    );
    let other = frame(1, 2, vec![1, 2]).write();
    assert_eq!(
        FKSpecies::reduce(&good, &other, &headless).unwrap_err(),
        ProcessingError::Format(FormatError::ShortHeader)
    );
    assert_eq!(
        FKSpecies::reduce(&good, &other, &good).unwrap_err(),
        ProcessingError::Dimension(DimensionError::FrameMismatch)
    );
}

#[test]
fn processor_runs_its_own_strategy() {
    let batch = raw_batch();
    match Processor::Identity(Identity::new("out")).proc(&batch) {
        Ok(Work::Copies(plan)) => {
            assert_eq!(plan.jobs.len(), 3);
            assert_eq!(plan.jobs[0], job("in/rawimg-0003.sis", "out", "rawimg-0003.sis"));
        }
        other => panic!("unexpected outcome {:?}", other),
    }
    match Processor::FKSpecies(FKSpecies::new("out")).proc(&batch) {
        Ok(Work::OpticalDensity(plan)) => {
            assert_eq!(plan.atoms.from, "in/rawimg-0001.sis");
        }
        other => panic!("unexpected outcome {:?}", other),
    }
    assert_eq!(
        Processor::FKSpecies(FKSpecies::new("out")).proc(&batch[..2].to_vec()),
        Err(ProcessingError::MissingPattern("rawimg-0002".to_string()))
    );
}

#[test]
fn events_are_flattened_before_they_are_processed() {
    let events = vec![
        FileEvent { paths: vec![path("in/a", "a"), path("in/b", "b")] },
        FileEvent { paths: vec![path("in/b", "b"), path("in/b", "b"), path("in/c", "c")] },
    ];
    let processor = Processor::Identity(Identity::new("out"));
    match handle_events(&processor, &events) {
        Ok(Some(Work::Copies(plan))) => {
            assert_eq!(
                plan.jobs,
                vec![job("in/a", "out", "a"), job("in/b", "out", "b"), job("in/c", "out", "c")]
            );
            assert_eq!(plan.failure, None);
        }
        other => panic!("unexpected outcome {:?}", other),
    }
}

#[test]
fn events_without_paths_ask_for_nothing() {
    let identity = Processor::Identity(Identity::new("out"));
    let fk = Processor::FKSpecies(FKSpecies::new("out"));
    assert_eq!(handle_events(&identity, &vec![]), Ok(None));
    assert_eq!(handle_events(&fk, &vec![]), Ok(None));
    assert_eq!(handle_events(&fk, &vec![FileEvent { paths: vec![] }]), Ok(None));
    assert_eq!(on_delivery(&fk, &Delivery::Batch(vec![])), Next::Wait);
}

#[test]
fn failure_of_the_watch_ends_the_run() {
    let fk = Processor::FKSpecies(FKSpecies::new("out"));
    assert_eq!(on_delivery(&fk, &Delivery::Failure), Next::Stop(RunError::Watch));
    let identity = Processor::Identity(Identity::new("out"));
    assert_eq!(on_delivery(&identity, &Delivery::Failure), Next::Stop(RunError::Watch));
}

#[test]
fn batch_that_cannot_be_planned_ends_the_run() {
    let fk = Processor::FKSpecies(FKSpecies::new("out"));
    let events = vec![FileEvent { paths: vec![path("in/rawimg-0001.sis", "rawimg-0001.sis")] }];
    assert_eq!(
        on_delivery(&fk, &Delivery::Batch(events)),
        Next::Stop(RunError::Processing(ProcessingError::MissingPattern(
            "rawimg-0002".to_string()
        )))
    );
}

#[test]
fn delivery_of_events_asks_for_work() {
    let fk = Processor::FKSpecies(FKSpecies::new("out"));
    let events = vec![FileEvent { paths: raw_batch() }];
    match on_delivery(&fk, &Delivery::Batch(events)) {
        Next::Perform(work) => {
            assert_eq!(work.failure(), None);
            assert_eq!(
                work,
                Work::OpticalDensity(FKSpecies::new("out").proc(&raw_batch()).unwrap())
            );
        }
        other => panic!("unexpected step {:?}", other),
    }
    let identity = Processor::Identity(Identity::new("out"));
    let events = vec![FileEvent { paths: vec![path("in/f", "f"), SourcePath::new("/", None)] }];
    match on_delivery(&identity, &Delivery::Batch(events)) {
        Next::Perform(work) => {
            assert_eq!(work.failure(), Some(ProcessingError::NoFileName("/".to_string())));
        }
        other => panic!("unexpected step {:?}", other),
    }
    let events = vec![FileEvent { paths: vec![path("in/f", "f")] }];
    match on_delivery(&identity, &Delivery::Batch(events)) {
        Next::Perform(work) => assert_eq!(work.failure(), None),
        other => panic!("unexpected step {:?}", other),
    }
}

#[test]
fn identity_names_copies_as_the_platform_names_the_files() {
    let batch = vec![SourcePath::from_path("in/f1.sis"), SourcePath::from_path("in/deep/f2.sis")];
    let plan = Identity::new("out").proc(&batch);
    assert_eq!(
        plan.jobs,
        vec![job("in/f1.sis", "out", "f1.sis"), job("in/deep/f2.sis", "out", "f2.sis")]
    );
    assert_eq!(plan.failure, None);
    let plan = Identity::new("out").proc(&vec![SourcePath::from_path("in/..")]);
    assert!(plan.jobs.is_empty());
    assert_eq!(plan.failure, Some(ProcessingError::NoFileName("in/..".to_string())));
}

use process_files_in_ftp::processing::{
    destination_path, failure_message, files_found_message, plan_jobs, plan_processing,
    pool_size_for, progress_message, saved_message, start_message, ProcessingPlan, ProgressEvent,
    ProgressTracker,
};

#[test]
fn pool_size_follows_the_file_count() {
    assert_eq!(pool_size_for(0), 5);
    assert_eq!(pool_size_for(19), 5);
    assert_eq!(pool_size_for(20), 10);
    assert_eq!(pool_size_for(49), 10);
    assert_eq!(pool_size_for(50), 20);
    assert_eq!(pool_size_for(10_000), 20);
}

#[test]
fn empty_listing_ends_the_run() {
    assert!(matches!(plan_processing(0), ProcessingPlan::NothingToProcess));
    assert!(matches!(plan_processing(1), ProcessingPlan::Process { threads: 5 }));
    assert!(matches!(plan_processing(30), ProcessingPlan::Process { threads: 10 }));
}

#[test]
fn files_land_in_tmp_under_their_own_name() {
    assert_eq!(destination_path("/guias/cpm/foto 1.jpg"), "./tmp/foto 1.jpg");
    assert_eq!(destination_path("sola.jpg"), "./tmp/sola.jpg");
    assert_eq!(destination_path("carpeta/"), "./tmp/");
}

#[test]
fn jobs_are_numbered_from_one() {
    let files = vec!["/a/x.jpg".to_string(), "/a/y.jpg".to_string()];
    let jobs = plan_jobs(&files);
    assert_eq!(jobs.len(), 2);
    assert_eq!(jobs[0].number, 1);
    assert_eq!(jobs[1].number, 2);
    assert_eq!(jobs[1].origin_path, "/a/y.jpg");
    assert_eq!(jobs[1].destination, "./tmp/y.jpg");
}

#[test]
fn run_finishes_on_the_last_file() {
    let mut t = ProgressTracker::new(3);
    assert_eq!(t.record_completion(), ProgressEvent::Processed(1));
    assert_eq!(t.record_completion(), ProgressEvent::Processed(2));
    assert_eq!(t.record_completion(), ProgressEvent::Finished);
    assert_eq!(t.processed, 3);
    let mut one = ProgressTracker::new(1);
    assert_eq!(one.record_completion(), ProgressEvent::Finished);
}

#[test]
fn messages_of_a_run() {
    assert_eq!(start_message(3, "2023-01-02 10:00:00", "/a/x.jpg"),
        "3) 2023-01-02 10:00:00 Inicia procesamiento de archivo /a/x.jpg.");
    assert_eq!(saved_message(3, "T", "/a/x.jpg", "./tmp/x.jpg"),
        "3) T Archivo /a/x.jpg guardado en ./tmp/x.jpg.");
    assert_eq!(failure_message("550 not a file"),
        "Error 550 not a file. <Posible causa del error: el archivo es una carpeta>");
    assert_eq!(files_found_message(12), "Se inicia procesamiento de 12 archivo(s): ");
    assert_eq!(progress_message(4), "Archivo procesado 4 de 4");
}

use process_files_in_ftp::config::FtpAttributes;
use process_files_in_ftp::thread_pool::{Message, ThreadPool, Worker, WorkerStep};

fn attrs() -> FtpAttributes {
    FtpAttributes { ftp_url: "h".to_string(), ftp_user: "u".to_string(), ftp_password: "p".to_string() }
}

#[test]
fn empty_pool_is_refused() {
    let r = ThreadPool::new(0, attrs());
    match r {
        Err(e) => assert_eq!(e.message(), "El tamaño de un pool debe ser mayor a cero"),
        Ok(_) => panic!("a pool without workers was built"),
    }
}

#[test]
fn pool_numbers_its_workers_from_zero() {
    let pool = ThreadPool::new(3, attrs()).ok().unwrap();
    assert_eq!(pool.size(), 3);
    let ids: Vec<usize> = pool.workers.iter().map(|w| w.id).collect();
    assert_eq!(ids, vec![0, 1, 2]);
    assert_eq!(pool.ftp_attrs.ftp_url, "h");
}

#[test]
fn shutdown_sends_one_terminate_per_worker() {
    let pool = ThreadPool::new(5, attrs()).ok().unwrap();
    let ms: Vec<Message<u32>> = pool.shutdown_messages();
    assert_eq!(ms.len(), 5);
    assert!(ms.iter().all(|m| matches!(m, Message::Terminate)));
    let w = Worker::new(0);
    for m in ms {
        assert!(matches!(w.next_step(m), WorkerStep::Stop));
    }
}

#[test]
fn jobs_are_run_by_workers() {
    let pool = ThreadPool::new(1, attrs()).ok().unwrap();
    let m = pool.execute(7u32);
    let w = Worker::new(4);
    assert_eq!(w.id, 4);
    match w.next_step(m) {
        WorkerStep::Run(j) => assert_eq!(j, 7),
        WorkerStep::Stop => panic!("a job made the worker stop"),
    }
}

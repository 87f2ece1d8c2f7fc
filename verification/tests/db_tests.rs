use process_files_in_ftp::db::{connection_url, DbExecutionModel, DbFileModel};

#[test]
fn execution_id_is_read_back() {
    let mut m = DbExecutionModel::new();
    assert!(m.execution_id.is_none());
    let u = m.end_of_process(3);
    assert_eq!(u.execution_id, None);
    m.start_of_process(41);
    assert_eq!(m.get_execution_id(), 41);
    let u = m.end_of_process(3);
    assert_eq!(u.files_processed_successfully, 3);
    assert_eq!(u.execution_id, Some(41));
}

#[test]
fn file_rows_belong_to_their_run() {
    let mut f = DbFileModel::new(41);
    assert_eq!(f.end_of_process(), None);
    f.start_of_process(900);
    assert_eq!(f.execution_id, 41);
    assert_eq!(f.end_of_process(), Some(900));
}

#[test]
fn database_address() {
    assert_eq!(connection_url("u", "p", "db-host:5432", "ftp"), "postgresql://u:p@db-host:5432/ftp");
}

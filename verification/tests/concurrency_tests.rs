use std::sync::Arc;

use the_logger::TheLogger;

/// Eight concurrent callers each flip one distinct field and then render;
/// every caller sees its own write in its snapshot, every rendered line is
/// a whole line, and the final configuration holds all eight writes.
#[test]
fn concurrent_toggles_see_consistent_snapshots() {
    let rt = tokio::runtime::Builder::new_multi_thread().worker_threads(4).build().unwrap();
    let logger = Arc::new(TheLogger::new());
    rt.block_on(async {
        let mut handles = Vec::new();
        for i in 0..8u32 {
            let lg = Arc::clone(&logger);
            handles.push(tokio::spawn(async move {
                match i {
                    0 => {
                        lg.hide_years();
                    }
                    1 => {
                        lg.hide_months();
                    }
                    2 => {
                        lg.hide_days();
                    }
                    3 => {
                        lg.hide_hours();
                    }
                    4 => {
                        lg.hide_minutes();
                    }
                    5 => {
                        lg.hide_seconds();
                    }
                    6 => {
                        lg.hide_level();
                    }
                    _ => {
                        lg.utc_time();
                    }
                }
                let snap = lg.snapshot();
                match i {
                    0 => assert!(snap.get_years_config()),
                    1 => assert!(snap.get_months_config()),
                    2 => assert!(snap.get_days_config()),
                    3 => assert!(snap.get_hours_config()),
                    4 => assert!(snap.get_minutes_config()),
                    5 => assert!(snap.get_seconds_config()),
                    6 => assert!(snap.get_level_config()),
                    _ => assert!(snap.get_utc_config()),
                }
                let line = lg.render_record("worker.rs", i, 0, "tick");
                assert!(line.ends_with("\n"));
                assert!(line.contains("@worker.rs:"));
            }));
        }
        for h in handles {
            h.await.unwrap();
        }
    });
    let s = logger.snapshot();
    assert!(s.get_years_config());
    assert!(s.get_months_config());
    assert!(s.get_days_config());
    assert!(s.get_hours_config());
    assert!(s.get_minutes_config());
    assert!(s.get_seconds_config());
    assert!(s.get_level_config());
    assert!(s.get_utc_config());
}

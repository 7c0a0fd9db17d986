//! Serving stored charts.
use vstd::prelude::*;
use vstd::string::*;
use crate::db::models::Alert;
use crate::service::charts::errors::ChartHandlerError;
use crate::service::Service;

verus! {

/// The media type of a stored chart.
pub const CHART_CONTENT_TYPE: &'static str = "image/png";

/// The file that holds the chart of `alert`; `NotFound` where the alert has
/// none.
pub fn chart_file_of(alert: &Alert) -> (file: Result<String, ChartHandlerError>)
    ensures
        file is Ok <==> alert.chart_filename is Some,
        file matches Ok(name) ==> Some(name@) == alert@.chart_filename,
        file matches Err(e) ==> e == ChartHandlerError::NotFound,
{
    match &alert.chart_filename {
        Some(name) => Ok(name.clone()),
        None => Err(ChartHandlerError::NotFound),
    }
}

/// The file that holds the chart of the alert `alert_id`. `NotFound` where
/// there is no such alert, or it has no chart. The store is left as it
/// was.
pub fn charts_get(service: &mut Service, alert_id: i64) -> (file: Result<String, ChartHandlerError>)
    requires
        old(service)@.store.wf(),
    ensures
        final(service)@ == old(service)@,
        final(service).same_services(old(service)),
        file is Ok <==> (old(service)@.store.by_id(alert_id as int) matches Some(row)
            && row.chart_filename is Some),
        file matches Ok(name) ==> Some(name@) == old(service)@.store.by_id(
            alert_id as int,
        )->0.chart_filename,
        file matches Err(e) ==> e == ChartHandlerError::NotFound,
{
    let mut tx = match service.db.start_transaction() {
        Ok(tx) => tx,
        Err(e) => {
            return Err(ChartHandlerError::from(e));
        },
    };
    let alert = match service.db.alert_get(&mut tx, alert_id) {
        Ok(alert) => alert,
        Err(e) => {
            return Err(ChartHandlerError::from(e));
        },
    };
    match service.db.commit(tx) {
        Ok(()) => {},
        Err(e) => {
            return Err(ChartHandlerError::from(e));
        },
    }
    chart_file_of(&alert)
}

} // verus!

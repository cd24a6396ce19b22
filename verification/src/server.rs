//! What the server's HTTP handlers answer, apart from the HTML dashboards:
//! the bootstrap data, the landing page, and whether a missing directory of
//! the configuration deserves a warning.

use vstd::prelude::*;
use vstd::string::*;

verus! {

/// The service name reported by `/api/bootstrap`.
pub const SERVICE_NAME: &'static str = "ximonitor-server";

/// The status reported by `/api/bootstrap` while the server runs.
pub const STATUS_OK: &'static str = "ok";

/// The body of `/api/bootstrap`.
pub struct BootstrapResponse {
    pub service: &'static str,
    pub status: &'static str,
    pub public_base_url: String,
    pub refresh_interval_secs: u64,
}

/// The bootstrap data for a server with the given public base URL and
/// refresh interval.
pub fn bootstrap_response(public_base_url: String, refresh_interval_secs: u64) -> (res: BootstrapResponse)
    ensures
        res.service@ == SERVICE_NAME@,
        res.status@ == STATUS_OK@,
        res.public_base_url@ == public_base_url@,
        res.refresh_interval_secs == refresh_interval_secs,
{
    BootstrapResponse {
        service: SERVICE_NAME,
        status: STATUS_OK,
        public_base_url,
        refresh_interval_secs,
    }
}

/// Whether a configured file's parent directory deserves a warning at start:
/// it is named (not empty) and does not exist yet.
pub fn should_warn_missing_dir(parent: &str, parent_exists: bool) -> (res: bool)
    ensures
        res == (parent@.len() > 0 && !parent_exists),
{
    !parent.is_empty() && !parent_exists
}

/// The page served at `/` while the dashboard is not attached.
pub const LANDING_PAGE_HTML: &'static str = r#"<!doctype html>
<html lang="en">
  <head>
    <meta charset="utf-8" />
    <meta name="viewport" content="width=device-width, initial-scale=1" />
    <title>XiMonitor</title>
    <style>
      :root {
        color-scheme: light;
        font-family: "Iowan Old Style", "Palatino Linotype", "Book Antiqua", serif;
        background: linear-gradient(135deg, #f3efe3 0%, #f9f7f1 55%, #e9f0f5 100%);
        color: #17212b;
      }
      body {
        margin: 0;
        min-height: 100vh;
        display: grid;
        place-items: center;
      }
      main {
        width: min(720px, calc(100vw - 32px));
        background: rgba(255, 255, 255, 0.82);
        border: 1px solid rgba(23, 33, 43, 0.08);
        border-radius: 24px;
        padding: 40px;
        box-shadow: 0 24px 80px rgba(23, 33, 43, 0.12);
        backdrop-filter: blur(20px);
      }
      h1 {
        font-size: clamp(2.5rem, 6vw, 4rem);
        line-height: 0.95;
        margin: 0 0 12px;
      }
      p {
        font-size: 1.1rem;
        line-height: 1.7;
        margin: 0;
      }
      code {
        font-family: "SFMono-Regular", "SF Mono", ui-monospace, monospace;
      }
    </style>
  </head>
  <body>
    <main>
      <h1>XiMonitor</h1>
      <p>The server bootstrap is running. Next commits will attach the node registry, WebSocket ingress, read-only APIs, and the dashboard.</p>
      <p style="margin-top: 18px;">Try <code>/healthz</code> or <code>/api/bootstrap</code> while the rest of the stack lands.</p>
    </main>
  </body>
</html>"#;

} // verus!

//! The frame that all pages share.

use vstd::prelude::*;

use crate::text;

verus! {

broadcast use vstd::string::group_string_axioms;

pub const FRAME_0: &'static str = r#"<!DOCTYPE html>
<html lang="en">
<head>
    <meta charset="utf-8">
    <meta name="viewport" content="width=device-width, initial-scale=1">
    <title>"#;

pub const FRAME_1: &'static str = r#"</title>
    <style>
        :root {
            --bg: #f8fafc;
            --surface: #ffffff;
            --border: #e2e8f0;
            --text: #0f172a;
            --muted: #64748b;
            --primary: #2563eb;
            --primary-bg: #eff6ff;
            --badge-bg: #f1f5f9;
            --badge-text: #334155;
            --status-green: #10b981;
            --status-yellow: #f59e0b;
            --status-red: #ef4444;
            --code-bg: #f1f5f9;
        }
        @media (prefers-color-scheme: dark) {
            :root {
                --bg: #0f172a;
                --surface: #1e293b;
                --border: #334155;
                --text: #f8fafc;
                --muted: #94a3b8;
                --primary: #3b82f6;
                --primary-bg: #1e3a8a33;
                --badge-bg: #334155;
                --badge-text: #e2e8f0;
                --code-bg: #0b132b;
            }
        }
        * { box-sizing: border-box; margin: 0; padding: 0; }
        body {
            font-family: -apple-system, BlinkMacSystemFont, "Segoe UI", Roboto, sans-serif;
            background: var(--bg);
            color: var(--text);
            line-height: 1.5;
            padding: 20px 24px;
        }
        .container { max-width: 1440px; margin: 0 auto; }
        header {
            display: flex;
            align-items: center;
            justify-content: space-between;
            margin-bottom: 24px;
            padding-bottom: 16px;
            border-bottom: 1px solid var(--border);
            flex-wrap: wrap;
            gap: 12px;
        }
        h1 { font-size: 20px; font-weight: 700; }
        nav { display: flex; gap: 8px; }
        nav a {
            padding: 6px 14px;
            border-radius: 6px;
            text-decoration: none;
            color: var(--muted);
            font-size: 13px;
            font-weight: 500;
            transition: all 0.15s;
        }
        nav a:hover { color: var(--text); background: var(--border); }
        nav a.active { color: var(--primary); background: var(--primary-bg); font-weight: 600; }
        
        .card {
            background: var(--surface);
            border: 1px solid var(--border);
            border-radius: 10px;
            padding: 16px 20px;
            margin-bottom: 20px;
            box-shadow: 0 1px 3px rgba(0,0,0,0.04);
        }
        h2 { font-size: 16px; font-weight: 600; margin-bottom: 14px; }
        h3 { font-size: 15px; font-weight: 600; }
        
        /* Master-Detail Split Layout */
        .workspace-grid {
            display: grid;
            grid-template-columns: 420px 1fr;
            gap: 20px;
            align-items: start;
        }
        @media (max-width: 980px) {
            .workspace-grid { grid-template-columns: 1fr; }
        }
        
        .inspector-panel {
            position: sticky;
            top: 20px;
            max-height: calc(100vh - 40px);
            overflow-y: auto;
            background: var(--surface);
            border: 1px solid var(--border);
            border-radius: 10px;
            padding: 20px;
            box-shadow: 0 2px 8px rgba(0,0,0,0.04);
        }
        
        .inspector-empty {
            text-align: center;
            padding: 60px 20px;
            color: var(--muted);
        }
        
        .device-item {
            cursor: pointer;
            transition: all 0.15s ease;
            border-left: 3px solid transparent;
        }
        .device-item:hover {
            background-color: var(--badge-bg);
        }
        .device-item.active-device {
            background-color: var(--primary-bg);
            border-left: 3px solid var(--primary);
        }
        
        table {
            width: 100%;
            border-collapse: collapse;
            font-size: 13px;
            text-align: left;
        }
        th, td {
            padding: 8px 10px;
            border-bottom: 1px solid var(--border);
            vertical-align: middle;
        }
        th {
            font-size: 11px;
            font-weight: 600;
            color: var(--muted);
            text-transform: uppercase;
        }
        tr:last-child td { border-bottom: none; }
        
        .badge {
            display: inline-block;
            padding: 2px 7px;
            font-size: 11px;
            border-radius: 9999px;
            background: var(--badge-bg);
            color: var(--badge-text);
            white-space: nowrap;
        }
        .badge-kind {
            background: #e0e7ff;
            color: #3730a3;
        }
        .badge-dual {
            background: #e0f2fe;
            color: #0369a1;
            font-weight: 600;
            border: 1px solid #bae6fd;
        }
        @media (prefers-color-scheme: dark) {
            .badge-kind { background: #312e81; color: #c7d2fe; }
            .badge-dual { background: #0c4a6e; color: #bae6fd; border-color: #0284c7; }
        }
        .status-dot {
            display: inline-block;
            width: 8px;
            height: 8px;
            border-radius: 50%;
            margin-right: 6px;
        }
        .status-ready { background-color: var(--status-green); }
        .status-starting { background-color: var(--status-yellow); }
        .status-error { background-color: var(--status-red); }
        
        .toolbar {
            display: flex;
            align-items: center;
            justify-content: space-between;
            flex-wrap: wrap;
            gap: 12px;
            margin-bottom: 14px;
        }
        .toolbar h2 { font-size: 16px; font-weight: 600; }
        .btn {
            display: inline-flex;
            align-items: center;
            gap: 6px;
            padding: 7px 14px;
            border-radius: 6px;
            border: 1px solid var(--border);
            background: var(--surface);
            color: var(--text);
            font-size: 13px;
            cursor: pointer;
            transition: all 0.15s;
        }
        .btn:hover { background: var(--badge-bg); }
        .btn-primary {
            background: var(--primary);
            color: #fff;
            border-color: var(--primary);
        }
        .btn-primary:hover { opacity: 0.9; background: var(--primary); }
        .btn-sm {
            padding: 3px 8px;
            font-size: 11px;
            border-radius: 4px;
            cursor: pointer;
        }
        .btn-web {
            background: #dbeafe;
            color: #1d4ed8;
            border: 1px solid #bfdbfe;
            font-weight: 600;
            text-decoration: none;
            display: inline-flex;
            align-items: center;
            gap: 4px;
        }
        .btn-web:hover {
            background: #bfdbfe;
        }
        @media (prefers-color-scheme: dark) {
            .btn-web {
                background: #1e3a8a;
                color: #bfdbfe;
                border-color: #2563eb;
            }
            .btn-web:hover {
                background: #1d4ed8;
            }
        }
        .btn-ping {
            background: #f8fafc;
            color: #475569;
            border: 1px solid #cbd5e1;
            font-weight: 600;
            display: inline-flex;
            align-items: center;
            gap: 4px;
            transition: all 0.15s;
        }
        .btn-ping:hover {
            background: #e2e8f0;
            color: #0f172a;
        }
        @media (prefers-color-scheme: dark) {
            .btn-ping {
                background: #1e293b;
                color: #cbd5e1;
                border-color: #475569;
            }
            .btn-ping:hover {
                background: #334155;
            }
        }
        
        .pills {
            display: flex;
            gap: 8px;
            flex-wrap: wrap;
            margin-bottom: 16px;
        }
        .pill {
            padding: 5px 12px;
            border-radius: 9999px;
            border: 1px solid var(--border);
            background: var(--surface);
            font-size: 12px;
            cursor: pointer;
            color: var(--muted);
            transition: all 0.15s;
        }
        .pill:hover { color: var(--text); border-color: var(--text); }
        .pill.active {
            background: var(--primary);
            border-color: var(--primary);
            color: #fff;
            font-weight: 600;
        }
        
        .status-pills {
            display: flex;
            gap: 6px;
            align-items: center;
            margin-bottom: 14px;
            flex-wrap: wrap;
        }
        .status-pill {
            padding: 4px 11px;
            border-radius: 6px;
            border: 1px solid var(--border);
            background: var(--surface);
            font-size: 12px;
            cursor: pointer;
            color: var(--muted);
            transition: all 0.15s;
        }
        .status-pill:hover { color: var(--text); border-color: var(--muted); }
        .status-pill.active {
            background: var(--primary-bg);
            border-color: var(--primary);
            color: var(--primary);
            font-weight: 600;
        }
        
        .search-input {
            padding: 6px 12px;
            border-radius: 6px;
            border: 1px solid var(--border);
            background: var(--surface);
            color: var(--text);
            font-size: 13px;
            min-width: 240px;
        }
        .search-input:focus {
            outline: 2px solid var(--primary);
            border-color: transparent;
        }
        
        .group-header {
            display: flex;
            align-items: center;
            justify-content: space-between;
            margin-bottom: 10px;
            padding-bottom: 6px;
            border-bottom: 2px solid var(--border);
        }
        .group-header h3 {
            font-size: 14px;
            font-weight: 600;
            display: flex;
            align-items: center;
            gap: 6px;
        }
        
        .empty-state {
            text-align: center;
            padding: 40px 20px;
            color: var(--muted);
        }
        .empty-state p { font-size: 13px; margin-top: 6px; }
        
        .inspector-title {
            font-size: 12px;
            font-weight: 700;
            text-transform: uppercase;
            letter-spacing: 0.5px;
            color: var(--muted);
            margin-bottom: 12px;
            display: flex;
            align-items: center;
            justify-content: space-between;
        }
        .inspector-sec {
            margin-top: 20px;
            padding-top: 16px;
            border-top: 1px solid var(--border);
        }
        .form-control {
            width: 100%;
            padding: 6px 10px;
            border-radius: 6px;
            border: 1px solid var(--border);
            background: var(--bg);
            color: var(--text);
            font-size: 12px;
            font-family: inherit;
        }
        textarea.form-control {
            min-height: 80px;
            resize: vertical;
        }
        .iface-card {
            background: var(--bg);
            border: 1px solid var(--border);
            border-radius: 6px;
            padding: 8px 10px;
            margin-bottom: 8px;
            font-size: 12px;
        }
        .merge-box {
            background: var(--primary-bg);
            border: 1px dashed var(--primary);
            border-radius: 6px;
            padding: 10px;
            margin-top: 10px;
            font-size: 12px;
        }
        .code-box {
            background: var(--code-bg);
            border: 1px solid var(--border);
            border-radius: 6px;
            padding: 8px;
            font-family: monospace;
            font-size: 11px;
            overflow-x: auto;
            white-space: pre;
            max-height: 220px;
        }
    </style>
</head>
<body>
<div class="container">
    <header>
        <h1>"#;

pub const FRAME_2: &'static str = r#"</h1>
        <nav>
            <a href="/" "#;

pub const FRAME_3: &'static str = r#">🏠 Dashboard</a>
            <a href="/devices" "#;

pub const FRAME_4: &'static str = r#">📱 Devices</a>
            <a href="/rooms" "#;

pub const FRAME_5: &'static str = r#">🚪 Rooms</a>
            <a href="/energy" "#;

pub const FRAME_6: &'static str = r#">⚡ Energy</a>
            <a href="/matter" "#;

pub const FRAME_7: &'static str = r#">✨ Matter Fabrics</a>
            <a href="/catalog" "#;

pub const FRAME_8: &'static str = r#">🏢 Hardware Catalog</a>
            <a href="/status" "#;

pub const FRAME_9: &'static str = r#">⚙️ System Status</a>
        </nav>
    </header>
    "#;

pub const FRAME_10: &'static str = r#"
</div>
</body>
</html>"#;

/// The document round the content of a page.
pub open spec fn frame_html(
    title: Seq<char>,
    dashboard_active: Seq<char>,
    devices_active: Seq<char>,
    rooms_active: Seq<char>,
    energy_active: Seq<char>,
    matter_active: Seq<char>,
    catalog_active: Seq<char>,
    status_active: Seq<char>,
    content: Seq<char>,
) -> Seq<char> {
    FRAME_0@ + title + FRAME_1@ + title + FRAME_2@ + dashboard_active + FRAME_3@ + devices_active + FRAME_4@ + rooms_active + FRAME_5@ + energy_active + FRAME_6@ + matter_active + FRAME_7@ + catalog_active + FRAME_8@ + status_active + FRAME_9@ + content + FRAME_10@
}

/// The document round the content of a page.
pub fn frame(
    title: &str,
    dashboard_active: &str,
    devices_active: &str,
    rooms_active: &str,
    energy_active: &str,
    matter_active: &str,
    catalog_active: &str,
    status_active: &str,
    content: &str,
) -> (r: String)
    ensures
        r@ == frame_html(title@, dashboard_active@, devices_active@, rooms_active@, energy_active@, matter_active@, catalog_active@, status_active@, content@),
{
    let mut out = FRAME_0.to_owned();
    out.append(title);
    out.append(FRAME_1);
    out.append(title);
    out.append(FRAME_2);
    out.append(dashboard_active);
    out.append(FRAME_3);
    out.append(devices_active);
    out.append(FRAME_4);
    out.append(rooms_active);
    out.append(FRAME_5);
    out.append(energy_active);
    out.append(FRAME_6);
    out.append(matter_active);
    out.append(FRAME_7);
    out.append(catalog_active);
    out.append(FRAME_8);
    out.append(status_active);
    out.append(FRAME_9);
    out.append(content);
    out.append(FRAME_10);
    out
}

/// The mark of the navigation entry `name`, where it is that of the current page.
pub open spec fn mark(current_tab: Seq<char>, name: Seq<char>) -> Seq<char> {
    if current_tab == name {
        "class=\"active\""@
    } else {
        ""@
    }
}

/// A page: the frame with the current entry of the navigation marked.
pub open spec fn page(title: Seq<char>, current_tab: Seq<char>, content: Seq<char>) -> Seq<char> {
    frame_html(
        title,
        mark(current_tab, "dashboard"@),
        mark(current_tab, "devices"@),
        mark(current_tab, "rooms"@),
        mark(current_tab, "energy"@),
        mark(current_tab, "matter"@),
        mark(current_tab, "catalog"@),
        mark(current_tab, "status"@),
        content,
    )
}

fn mark_of(current_tab: &str, name: &str) -> (r: &'static str)
    ensures
        r@ == mark(current_tab@, name@),
{
    if text::same(current_tab, name) {
        "class=\"active\""
    } else {
        ""
    }
}

/// A page: the frame with the current entry of the navigation marked.
pub fn page_layout(title: &str, current_tab: &str, content: &str) -> (r: String)
    ensures
        r@ == page(title@, current_tab@, content@),
{
    frame(
        title,
        mark_of(current_tab, "dashboard"),
        mark_of(current_tab, "devices"),
        mark_of(current_tab, "rooms"),
        mark_of(current_tab, "energy"),
        mark_of(current_tab, "matter"),
        mark_of(current_tab, "catalog"),
        mark_of(current_tab, "status"),
        content,
    )
}

}

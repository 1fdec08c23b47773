//! The dashboard, the energy page, the status page and the page that shows an error.

use vstd::prelude::*;

use crate::device::{DeviceModel, DeviceRecord};
use crate::pages::device_data;
use crate::pages::layout;
use crate::text;

verus! {

broadcast use vstd::string::group_string_axioms;

pub const DASHBOARD_0: &'static str = r#"
        <div style="margin-bottom:20px; display:flex; justify-content:space-between; align-items:center; flex-wrap:wrap; gap:12px;">
            <div>
                <h2 style="font-size:22px; font-weight:700; display:flex; align-items:center; gap:8px;">
                    <span>🏠 HomeNode Live Dashboard</span>
                    <span class="badge" style="background:#dcfce7; color:#166534; font-size:11px; font-weight:600; padding:3px 8px; border-radius:12px;">
                        <span class="status-dot status-ready" style="width:8px; height:8px; margin-right:4px;"></span>Live System Active
                    </span>
                </h2>
                <div style="font-size:12px; color:var(--muted); margin-top:3px;">
                    Zentrale Übersicht: Echtzeit-Energiefluss, BTHome BLE-Sensoren und Live-Ereignisse
                </div>
            </div>
            <div style="display:flex; gap:8px; align-items:center;">
                <span id="dash-last-updated" style="font-size:11px; color:var(--muted);">Connecting...</span>
                <form action="/scan" method="POST" style="margin:0;">
                    <button type="submit" class="btn btn-sm btn-primary">🔄 Scan Network</button>
                </form>
            </div>
        </div>

        <!-- Energy KPI Cards Grid -->
        <div style="display:grid; grid-template-columns:repeat(auto-fit, minmax(240px, 1fr)); gap:16px; margin-bottom:20px;">
            <!-- ☀️ Solar Generation -->
            <div class="card" style="margin-bottom:0; border-top:4px solid #f59e0b;">
                <div style="display:flex; justify-content:space-between; align-items:center; margin-bottom:8px;">
                    <span style="font-weight:600; font-size:12px; color:var(--muted);">☀️ SOLAR-ERZEUGUNG</span>
                    <span class="badge" style="font-size:10px;">Fronius</span>
                </div>
                <div style="display:flex; align-items:baseline; gap:6px; margin-bottom:10px;">
                    <span id="dash-solar-power-val" style="font-size:30px; font-weight:800; color:#d97706; font-family:monospace;">--</span>
                    <span style="font-size:15px; font-weight:600; color:var(--muted);">W</span>
                </div>
                <div style="border-top:1px solid var(--border); padding-top:8px; display:flex; justify-content:space-between; font-size:11px; color:var(--muted);">
                    <span>Heute: <strong id="dash-solar-day-val" style="color:var(--text);">-- kWh</strong></span>
                    <span>Jahr: <strong id="dash-solar-year-val" style="color:var(--text);">-- kWh</strong></span>
                </div>
            </div>

            <!-- 🌐 Grid Net Flow -->
            <div class="card" style="margin-bottom:0; border-top:4px solid #2563eb;">
                <div style="display:flex; justify-content:space-between; align-items:center; margin-bottom:8px;">
                    <span style="font-weight:600; font-size:12px; color:var(--muted);">🌐 NETZBEZUG / EINSPEISUNG</span>
                    <span class="badge" style="font-size:10px;">Shelly Pro 3EM</span>
                </div>
                <div style="display:flex; align-items:baseline; gap:6px; margin-bottom:10px;">
                    <span id="dash-grid-power-val" style="font-size:30px; font-weight:800; font-family:monospace;">--</span>
                    <span style="font-size:15px; font-weight:600; color:var(--muted);">W</span>
                    <span id="dash-grid-dir-badge" class="badge" style="margin-left:auto; font-size:10px; font-weight:600;">--</span>
                </div>
                <div style="border-top:1px solid var(--border); padding-top:8px; display:flex; justify-content:space-between; font-size:11px; color:var(--muted);">
                    <span>Import: <strong id="dash-grid-import-val" style="color:var(--text);">-- kWh</strong></span>
                    <span>Export: <strong id="dash-grid-export-val" style="color:var(--text);">-- kWh</strong></span>
                </div>
            </div>

            <!-- 🏠 House Load -->
            <div class="card" style="margin-bottom:0; border-top:4px solid #10b981;">
                <div style="display:flex; justify-content:space-between; align-items:center; margin-bottom:8px;">
                    <span style="font-weight:600; font-size:12px; color:var(--muted);">🏠 HAUSVERBRAUCH</span>
                    <span class="badge" style="font-size:10px;">Berechnet</span>
                </div>
                <div style="display:flex; align-items:baseline; gap:6px; margin-bottom:10px;">
                    <span id="dash-house-power-val" style="font-size:30px; font-weight:800; color:#059669; font-family:monospace;">--</span>
                    <span style="font-size:15px; font-weight:600; color:var(--muted);">W</span>
                </div>
                <div style="border-top:1px solid var(--border); padding-top:8px; display:flex; justify-content:space-between; font-size:11px; color:var(--muted);">
                    <span>Autarkie: <strong id="dash-autarky-val" style="color:var(--status-green);">-- %</strong></span>
                    <span>Eigenverbrauch: <strong id="dash-self-val" style="color:var(--text);">-- %</strong></span>
                </div>
            </div>

            <!-- 🔋 Balcony Storage -->
            <div class="card" style="margin-bottom:0; border-top:4px solid #8b5cf6;">
                <div style="display:flex; justify-content:space-between; align-items:center; margin-bottom:8px;">
                    <span style="font-weight:600; font-size:12px; color:var(--muted);">🔋 SPEICHER & BALKON</span>
                    <span class="badge" style="font-size:10px;">EcoFlow</span>
                </div>
                <div style="margin-bottom:10px;">
                    <div style="font-size:13px; font-weight:700;">2 Wechselrichter im LAN</div>
                    <div style="font-size:11px; color:var(--muted); margin-top:2px;">ecoflow1 (.96) & ecoflow2 (.105)</div>
                </div>
                <div style="border-top:1px solid var(--border); padding-top:8px; font-size:11px; color:var(--muted); display:flex; justify-content:space-between;">
                    <span>Status: <strong style="color:var(--status-green);">Verbunden</strong></span>
                    <a href="/energy" style="color:var(--primary); text-decoration:none; font-weight:600;">Details ↗</a>
                </div>
            </div>
        </div>

        <!-- Power Flow Diagram (Compact) -->
        <div class="card" style="padding:16px 20px; margin-bottom:20px;">
            <div style="display:flex; justify-content:space-between; align-items:center; margin-bottom:12px;">
                <h3 style="font-size:14px; font-weight:600;">⚡ Live Energiefluss</h3>
                <a href="/energy" style="font-size:11px; color:var(--primary); text-decoration:none; font-weight:600;">Ausführliche 3-Phasen Analyse ↗</a>
            </div>
            <div style="display:flex; justify-content:space-around; align-items:center; flex-wrap:wrap; gap:14px;">
                <div style="text-align:center; min-width:120px; padding:12px; background:var(--bg); border:2px solid #f59e0b; border-radius:10px;">
                    <div style="font-size:26px;">☀️</div>
                    <div style="font-weight:700; font-size:12px; margin-top:2px;">Solar PV</div>
                    <div id="dash-flow-solar" style="font-weight:700; font-size:15px; color:#d97706; margin-top:1px;">-- W</div>
                </div>

                <div style="display:flex; flex-direction:column; align-items:center; min-width:70px;">
                    <span style="font-size:18px;">➡️</span>
                    <span id="dash-flow-solar-text" style="font-size:10px; font-weight:600; color:var(--muted);">-- W</span>
                </div>

                <div style="text-align:center; min-width:140px; padding:14px; background:var(--bg); border:2px solid #10b981; border-radius:10px; box-shadow:0 2px 6px rgba(0,0,0,0.04);">
                    <div style="font-size:28px;">🏠</div>
                    <div style="font-weight:700; font-size:13px; margin-top:2px;">Hausverbrauch</div>
                    <div id="dash-flow-house" style="font-weight:800; font-size:18px; color:#059669; margin-top:1px;">-- W</div>
                </div>

                <div style="display:flex; flex-direction:column; align-items:center; min-width:70px;">
                    <span style="font-size:18px;" id="dash-arrow-grid">⬅️</span>
                    <span id="dash-flow-grid-text" style="font-size:10px; font-weight:600; color:var(--muted);">-- W</span>
                </div>

                <div style="text-align:center; min-width:120px; padding:12px; background:var(--bg); border:2px solid #2563eb; border-radius:10px;">
                    <div style="font-size:26px;">🌐</div>
                    <div style="font-weight:700; font-size:12px; margin-top:2px;">Stromnetz</div>
                    <div id="dash-flow-grid" style="font-weight:700; font-size:15px; margin-top:1px;">-- W</div>
                    <div id="dash-flow-grid-dir" style="font-size:10px; color:var(--muted);">--</div>
                </div>
            </div>
        </div>

        <!-- BLE Sensors & Live Event Log -->
        <div style="display:grid; grid-template-columns: 320px 1fr; gap:20px; align-items:start; margin-bottom:20px;">
            <!-- Left column: Active BLE Sensors -->
            <div>
                <div class="card" style="margin-bottom:0;">
                    <div style="display:flex; justify-content:space-between; align-items:center; margin-bottom:10px;">
                        <h3 style="font-size:14px; font-weight:700; display:flex; align-items:center; gap:6px; margin:0;">
                            <span>🔘 BLE Sensoren & Taster</span>
                        </h3>
                        <a href="/devices" style="font-size:11px; color:var(--primary); text-decoration:none;">Alle Geräte ↗</a>
                    </div>
                    <div style="font-size:11px; color:var(--muted); margin-bottom:12px;">
                        Erkannte BTHome Taster & Sensoren mit aktuellem Batteriestand und Standort.
                    </div>
                    <div id="dash-sensor-chips" style="display:flex; flex-direction:column; gap:8px;">
                        <span style="font-size:11px; color:var(--muted); text-align:center; padding:16px 0;">Warte auf Sensor-Meldungen...</span>
                    </div>
                </div>
            </div>

            <!-- Right column: Live Event Feed -->
            <div class="card" style="margin-bottom:0; border-left:4px solid #2563eb; min-height:360px;">
                <div style="display:flex; justify-content:space-between; align-items:center; flex-wrap:wrap; gap:8px; margin-bottom:12px; border-bottom:1px solid var(--border); padding-bottom:10px;">
                    <div>
                        <div style="font-weight:700; font-size:14px; display:flex; align-items:center; gap:6px;">
                            <span>⚡ Echtzeit Event-Log & Raum-Tracking</span>
                            <span id="dash-event-count" class="badge" style="background:#2563eb; color:#fff; font-size:10px; padding:1px 6px; border-radius:10px;">0 Events</span>
                        </div>
                        <div style="font-size:11px; color:var(--muted); margin-top:2px;">
                            Live-Meldungen von Buttons, Sensoren und Gateways inklusive Raumerkennung
                        </div>
                    </div>
                    <div style="display:flex; gap:6px; align-items:center;">
                        <button type="button" class="btn btn-sm" onclick="clearDashboardEvents()" style="background:var(--bg); border:1px solid var(--border); font-size:11px;">Clear Log</button>
                    </div>
                </div>

                <!-- Event feed items list -->
                <div id="dash-log-container" style="max-height:420px; overflow-y:auto; background:var(--code-bg); border:1px solid var(--border); border-radius:8px; padding:8px 12px; font-family:monospace; font-size:11px; line-height:1.7;">
                    <div id="dash-log-empty" style="color:var(--muted); text-align:center; padding:30px 0; font-size:12px;">
                        Warte auf BLE Events (drücke z.B. den Shelly BLU Button)...
                    </div>
                    <div id="dash-log-items"></div>
                </div>
            </div>
        </div>
                <div style="display:flex; justify-content:space-between; align-items:center; flex-wrap:wrap; gap:8px; margin-bottom:12px; border-bottom:1px solid var(--border); padding-bottom:10px;">
                    <div>
                        <div style="font-weight:700; font-size:14px; display:flex; align-items:center; gap:6px;">
                            <span>⚡ Echtzeit Event-Log & Raum-Tracking</span>
                            <span id="dash-event-count" class="badge" style="background:#2563eb; color:#fff; font-size:10px; padding:1px 6px; border-radius:10px;">0 Events</span>
                        </div>
                        <div style="font-size:11px; color:var(--muted); margin-top:2px;">
                            Live-Meldungen von Buttons, Sensoren und Gateways inklusive Raumerkennung
                        </div>
                    </div>
                    <div style="display:flex; gap:6px; align-items:center;">
                        <button type="button" class="btn btn-sm" onclick="clearDashboardEvents()" style="background:var(--bg); border:1px solid var(--border); font-size:11px;">Clear Log</button>
                    </div>
                </div>

                <!-- Event feed items list -->
                <div id="dash-log-container" style="max-height:420px; overflow-y:auto; background:var(--code-bg); border:1px solid var(--border); border-radius:8px; padding:8px 12px; font-family:monospace; font-size:11px; line-height:1.7;">
                    <div id="dash-log-empty" style="color:var(--muted); text-align:center; padding:30px 0; font-size:12px;">
                        Warte auf BLE Events (drücke z.B. den Shelly BLU Button)...
                    </div>
                    <div id="dash-log-items"></div>
                </div>
            </div>
        </div>

        <!-- Bottom Navigation Quick Jump -->
        <div style="display:grid; grid-template-columns:repeat(auto-fit, minmax(220px, 1fr)); gap:14px;">
            <a href="/devices" class="card" style="text-decoration:none; color:inherit; margin-bottom:0; transition:border-color 0.15s; display:flex; align-items:center; gap:12px;">
                <span style="font-size:24px;">📱</span>
                <div>
"#;

pub const DASHBOARD_1: &'static str = r#"                    <div style="font-weight:700; font-size:13px; color:var(--primary);">Geräteinventar ("#;

pub const DASHBOARD_2: &'static str = r#" Geräte)</div>
                    <div style="font-size:11px; color:var(--muted);">Filter, Dokumentation & Port-Scanner ("#;

pub const DASHBOARD_3: &'static str = r#" aktiv)</div>
                </div>
            </a>
            <a href="/energy" class="card" style="text-decoration:none; color:inherit; margin-bottom:0; transition:border-color 0.15s; display:flex; align-items:center; gap:12px;">
                <span style="font-size:24px;">⚡</span>
                <div>
                    <div style="font-weight:700; font-size:13px; color:var(--primary);">Energie & 3-Phasen</div>
                    <div style="font-size:11px; color:var(--muted);">Fronius Inverter & Shelly Pro 3EM Phasen</div>
                </div>
            </a>
            <a href="/matter" class="card" style="text-decoration:none; color:inherit; margin-bottom:0; transition:border-color 0.15s; display:flex; align-items:center; gap:12px;">
                <span style="font-size:24px;">✨</span>
                <div>
                    <div style="font-weight:700; font-size:13px; color:var(--primary);">Matter Fabrics</div>
                    <div style="font-size:11px; color:var(--muted);">Apple Home, Google, Alexa & Multi-Admin</div>
                </div>
            </a>
            <a href="/catalog" class="card" style="text-decoration:none; color:inherit; margin-bottom:0; transition:border-color 0.15s; display:flex; align-items:center; gap:12px;">
                <span style="font-size:24px;">🏢</span>
                <div>
                    <div style="font-weight:700; font-size:13px; color:var(--primary);">Hardware Katalog</div>
                    <div style="font-size:11px; color:var(--muted);">Modelle, Handbücher & Rhai-Treiber</div>
                </div>
            </a>
        </div>

        <script>
        function escapeHtml(text) {
            return (text || '').replace(/&/g, "&amp;").replace(/</g, "&lt;").replace(/>/g, "&gt;");
        }
        function escapeAttr(text) {
            return (text || '').replace(/"/g, "&quot;").replace(/'/g, "&#39;");
        }

        function clearDashboardEvents() {
            const items = document.getElementById('dash-log-items');
            if (items) items.innerHTML = '';
            const empty = document.getElementById('dash-log-empty');
            if (empty) empty.style.display = 'block';
            const count = document.getElementById('dash-event-count');
            if (count) count.innerText = '0 Events';
        }

        async function fetchDashboardEnergy() {
            try {
                const res = await fetch('/api/energy/live');
                if (!res.ok) return;
                const data = await res.json();

                document.getElementById('dash-solar-power-val').innerText = Math.round(data.solar_power_w).toLocaleString();
                document.getElementById('dash-solar-day-val').innerText = (data.solar_day_kwh || 0).toFixed(2) + ' kWh';
                document.getElementById('dash-solar-year-val').innerText = Math.round(data.solar_year_kwh || 0).toLocaleString() + ' kWh';

                const gridVal = Math.round(data.grid_power_w);
                const absGrid = Math.abs(gridVal);
                document.getElementById('dash-grid-power-val').innerText = absGrid.toLocaleString();
                const gridBadge = document.getElementById('dash-grid-dir-badge');
                if (gridVal < -1) {
                    gridBadge.innerText = '🟢 EINSPEISUNG';
                    gridBadge.style.background = '#dcfce7';
                    gridBadge.style.color = '#166534';
                } else {
                    gridBadge.innerText = '🟠 NETZBEZUG';
                    gridBadge.style.background = '#ffedd5';
                    gridBadge.style.color = '#9a3412';
                }
                document.getElementById('dash-grid-import-val').innerText = (data.grid_import_kwh || 0).toLocaleString() + ' kWh';
                document.getElementById('dash-grid-export-val').innerText = (data.grid_export_kwh || 0).toLocaleString() + ' kWh';

                document.getElementById('dash-house-power-val').innerText = Math.round(data.house_consumption_w).toLocaleString();
                document.getElementById('dash-autarky-val').innerText = (data.autarky_pct || 0).toFixed(1) + ' %';
                document.getElementById('dash-self-val').innerText = (data.self_consumption_pct || 0).toFixed(1) + ' %';

                document.getElementById('dash-flow-solar').innerText = Math.round(data.solar_power_w).toLocaleString() + ' W';
                document.getElementById('dash-flow-solar-text').innerText = Math.round(data.solar_power_w) + ' W';
                document.getElementById('dash-flow-house').innerText = Math.round(data.house_consumption_w).toLocaleString() + ' W';
                document.getElementById('dash-flow-grid').innerText = absGrid.toLocaleString() + ' W';
                document.getElementById('dash-flow-grid-dir').innerText = (gridVal < -1) ? 'Einspeisung ins Netz' : 'Netzbezug';

                if (gridVal < -1) {
                    document.getElementById('dash-arrow-grid').innerText = '➡️';
                    document.getElementById('dash-flow-grid-text').innerText = 'Export ' + absGrid + ' W';
                } else {
                    document.getElementById('dash-arrow-grid').innerText = '⬅️';
                    document.getElementById('dash-flow-grid-text').innerText = 'Import ' + absGrid + ' W';
                }

                const updatedEl = document.getElementById('dash-last-updated');
                if (updatedEl) updatedEl.innerText = 'Aktualisiert: ' + new Date().toLocaleTimeString();
            } catch (e) {
                console.debug('Dashboard energy error:', e);
            }
        }

        async function fetchDashboardEvents() {
            try {
                const res = await fetch('/api/events');
                if (!res.ok) return;
                const events = await res.json();
                if (!Array.isArray(events)) return;

                const countEl = document.getElementById('dash-event-count');
                if (countEl) countEl.innerText = `${events.length} Event${events.length === 1 ? '' : 's'}`;

                const container = document.getElementById('dash-log-items');
                const emptyEl = document.getElementById('dash-log-empty');
                if (container) {
                    if (events.length === 0) {
                        if (emptyEl) emptyEl.style.display = 'block';
                        container.innerHTML = '';
                    } else {
                        if (emptyEl) emptyEl.style.display = 'none';
                        container.innerHTML = events.slice(0, 40).map(ev => {
                            const time = ev.timestamp ? new Date(ev.timestamp).toLocaleTimeString() : '';
                            let badgeBg = '#2563eb';
                            if (ev.event_type.includes('press') || ev.event_type.includes('push')) badgeBg = '#d97706';
                            if (ev.event_type.includes('door') || ev.event_type.includes('open')) badgeBg = '#059669';
                            if (ev.event_type.includes('battery')) badgeBg = '#10b981';

                            const gwLabel = ev.gateway_name || ev.gateway_ip || ev.gateway || 'Shelly Gateway';
                            let locationBadge = '';
                            if (ev.room) {
                                locationBadge = `<span class="badge" style="background:#fef3c7; color:#92400e; font-size:10px; font-weight:700; padding:1px 6px; border-radius:4px; display:inline-flex; align-items:center; gap:3px;">📍 ${escapeHtml(ev.room)} <small style="opacity:0.8; font-weight:normal;">(${escapeHtml(gwLabel)})</small></span>`;
                            } else {
                                locationBadge = `<span class="badge" style="background:#f1f5f9; color:#475569; font-size:10px; padding:1px 6px; border-radius:4px;">📡 ${escapeHtml(gwLabel)}</span>`;
                            }

                            return `
                                <div style="display:flex; align-items:center; justify-content:space-between; gap:10px; padding:4px 0; border-bottom:1px solid rgba(148,163,184,0.15);">
                                    <div style="display:flex; align-items:center; gap:6px; overflow:hidden;">
                                        <span style="color:var(--muted); font-size:10px;">[${time}]</span>
                                        <span>${ev.icon || '🔘'}</span>
                                        <strong style="color:var(--text);">${escapeHtml(ev.device_name)}</strong>
                                        <span class="badge" style="background:${badgeBg}; color:#fff; font-size:10px; padding:1px 6px; border-radius:3px;">${escapeHtml(ev.description)}</span>
                                        ${locationBadge}
                                    </div>
                                    <div style="display:flex; align-items:center; gap:8px; font-size:10px; color:var(--muted); flex-shrink:0;">
                                        <span>📶 ${ev.rssi} dBm</span>
                                        <a href="/devices#bthome-${escapeAttr(ev.mac.replace(/[:\-]/g, ''))}" style="color:var(--primary); text-decoration:none; font-weight:600;">Inspect ↗</a>
                                    </div>
                                </div>
                            `;
                        }).join('');
                    }
                }

                // Sensor cards update
                const chipsEl = document.getElementById('dash-sensor-chips');
                if (chipsEl) {
                    const seenMacs = new Map();
                    events.forEach(ev => {
                        if (!seenMacs.has(ev.mac)) {
                            seenMacs.set(ev.mac, ev);
                        }
                    });

                    if (seenMacs.size === 0) {
                        chipsEl.innerHTML = '<span style="font-size:11px; color:var(--muted);">Keine aktiven Sensoren empfangen.</span>';
                    } else {
                        chipsEl.innerHTML = Array.from(seenMacs.values()).map(ev => {
                            const bat = ev.battery ? `🔋 ${ev.battery}%` : '';
                            const roomTag = ev.room ? `📍 ${escapeHtml(ev.room)}` : (ev.gateway_name || 'Standort offen');
                            return `
                                <div style="background:var(--bg); border:1px solid var(--border); border-radius:6px; padding:8px 10px; display:flex; justify-content:space-between; align-items:center;">
                                    <div style="display:flex; align-items:center; gap:6px;">
                                        <span>${ev.icon || '🔘'}</span>
                                        <div>
                                            <div style="font-weight:600; font-size:12px;">${escapeHtml(ev.device_name)}</div>
                                            <div style="font-size:10px; color:var(--muted);">${bat} &bull; 📶 ${ev.rssi} dBm</div>
                                        </div>
                                    </div>
                                    <div style="text-align:right;">
                                        <span class="badge" style="background:#fef3c7; color:#92400e; font-size:10px; font-weight:600;">${roomTag}</span>
                                    </div>
                                </div>
                            `;
                        }).join('');
                    }
                }
            } catch (e) {
                console.debug('Dashboard events error:', e);
            }
        }

        window.addEventListener('DOMContentLoaded', () => {
            fetchDashboardEnergy();
            fetchDashboardEvents();
            setInterval(fetchDashboardEnergy, 2500);
            setInterval(fetchDashboardEvents, 1200);
        });
        </script>
        "#;

/// The content of the dashboard.
pub open spec fn dashboard_html(total: Seq<char>, active: Seq<char>) -> Seq<char> {
    DASHBOARD_0@ + DASHBOARD_1@ + total + DASHBOARD_2@ + active + DASHBOARD_3@
}

/// The content of the dashboard.
pub fn dashboard(total: &str, active: &str) -> (r: String)
    ensures
        r@ == dashboard_html(total@, active@),
{
    let mut out = DASHBOARD_0.to_owned();
    out.append(DASHBOARD_1);
    out.append(total);
    out.append(DASHBOARD_2);
    out.append(active);
    out.append(DASHBOARD_3);
    out
}

pub const ENERGY_0: &'static str = r#"
    <div style="margin-bottom:20px; display:flex; justify-content:space-between; align-items:center; flex-wrap:wrap; gap:12px;">
        <div>
            <h2 style="font-size:20px; font-weight:700; display:flex; align-items:center; gap:8px;">
                <span>⚡ Real-Time Energy Dashboard</span>
                <span id="energy-live-pulse" class="badge" style="background:#dcfce7; color:#166534; font-size:11px; font-weight:600; padding:3px 8px; border-radius:12px;">
                    <span class="status-dot status-ready" style="width:8px; height:8px; margin-right:4px;"></span>Live Polling
                </span>
            </h2>
            <div style="font-size:12px; color:var(--muted); margin-top:3px;">
                Monitoring Fronius Solar Inverter, Shelly Pro 3EM 3-Phase Grid Meter, and EcoFlow Storage
            </div>
        </div>
        <div style="display:flex; gap:8px; align-items:center;">
            <span id="energy-last-updated" style="font-size:11px; color:var(--muted);">Connecting...</span>
            <button class="btn btn-sm btn-primary" onclick="fetchLiveEnergy()">🔄 Refresh</button>
        </div>
    </div>

    <!-- Top KPI Overview Grid -->
    <div style="display:grid; grid-template-columns:repeat(auto-fit, minmax(260px, 1fr)); gap:16px; margin-bottom:20px;">
        <!-- ☀️ Solar Inverter (Fronius) -->
        <div class="card" style="margin-bottom:0; border-top: 4px solid #f59e0b;">
            <div style="display:flex; justify-content:space-between; align-items:center; margin-bottom:8px;">
                <div style="display:flex; align-items:center; gap:6px; font-weight:600; font-size:13px; color:var(--muted);">
                    <span>☀️ SOLAR GENERATION</span>
                </div>
                <span id="solar-badge" class="badge" style="font-size:10px;">Fronius Inverter</span>
            </div>
            <div style="display:flex; align-items:baseline; gap:6px; margin-bottom:12px;">
                <span id="solar-power-val" style="font-size:32px; font-weight:800; color:#d97706; font-family:monospace;">--</span>
                <span style="font-size:16px; font-weight:600; color:var(--muted);">W</span>
            </div>
            <div style="border-top:1px solid var(--border); padding-top:10px; display:grid; grid-template-columns:1fr 1fr 1fr; gap:6px; font-size:11px;">
                <div>
                    <span style="color:var(--muted); display:block;">Today</span>
                    <strong id="solar-day-val">-- kWh</strong>
                </div>
                <div>
                    <span style="color:var(--muted); display:block;">Year</span>
                    <strong id="solar-year-val">-- kWh</strong>
                </div>
                <div>
                    <span style="color:var(--muted); display:block;">Lifetime</span>
                    <strong id="solar-total-val">-- MWh</strong>
                </div>
            </div>
        </div>

        <!-- 🌐 Grid Net Flow (Shelly Pro 3EM) -->
        <div class="card" style="margin-bottom:0; border-top: 4px solid #2563eb;">
            <div style="display:flex; justify-content:space-between; align-items:center; margin-bottom:8px;">
                <div style="display:flex; align-items:center; gap:6px; font-weight:600; font-size:13px; color:var(--muted);">
                    <span>🌐 GRID NET FLOW</span>
                </div>
                <span id="grid-badge" class="badge" style="font-size:10px;">Shelly Pro 3EM</span>
            </div>
            <div style="display:flex; align-items:baseline; gap:6px; margin-bottom:12px;">
                <span id="grid-power-val" style="font-size:32px; font-weight:800; font-family:monospace;">--</span>
                <span style="font-size:16px; font-weight:600; color:var(--muted);">W</span>
                <span id="grid-dir-badge" class="badge" style="margin-left:auto; font-size:11px; font-weight:600;">--</span>
            </div>
            <div style="border-top:1px solid var(--border); padding-top:10px; display:grid; grid-template-columns:1fr 1fr; gap:8px; font-size:11px;">
                <div>
                    <span style="color:var(--muted); display:block;">Grid Import Total</span>
                    <strong id="grid-import-val">-- kWh</strong>
                </div>
                <div>
                    <span style="color:var(--muted); display:block;">Feed-in Export Total</span>
                    <strong id="grid-export-val">-- kWh</strong>
                </div>
            </div>
        </div>

        <!-- 🏠 House Consumption -->
        <div class="card" style="margin-bottom:0; border-top: 4px solid #10b981;">
            <div style="display:flex; justify-content:space-between; align-items:center; margin-bottom:8px;">
                <div style="display:flex; align-items:center; gap:6px; font-weight:600; font-size:13px; color:var(--muted);">
                    <span>🏠 HOUSE CONSUMPTION</span>
                </div>
                <span class="badge" style="font-size:10px;">Calculated Load</span>
            </div>
            <div style="display:flex; align-items:baseline; gap:6px; margin-bottom:12px;">
                <span id="house-power-val" style="font-size:32px; font-weight:800; color:#059669; font-family:monospace;">--</span>
                <span style="font-size:16px; font-weight:600; color:var(--muted);">W</span>
            </div>
            <div style="border-top:1px solid var(--border); padding-top:10px; display:grid; grid-template-columns:1fr 1fr; gap:8px; font-size:11px;">
                <div>
                    <span style="color:var(--muted); display:block;">Autarky (Self-Sufficiency)</span>
                    <strong id="autarky-val" style="color:var(--status-green);">-- %</strong>
                </div>
                <div>
                    <span style="color:var(--muted); display:block;">Self-Consumption</span>
                    <strong id="self-consumption-val">-- %</strong>
                </div>
            </div>
        </div>

        <!-- 🔋 Batteries & EcoFlow Systems -->
        <div class="card" style="margin-bottom:0; border-top: 4px solid #8b5cf6;">
            <div style="display:flex; justify-content:space-between; align-items:center; margin-bottom:8px;">
                <div style="display:flex; align-items:center; gap:6px; font-weight:600; font-size:13px; color:var(--muted);">
                    <span>🔋 BATTERY STORAGE</span>
                </div>
                <span class="badge" style="font-size:10px;">EcoFlow PowerStream</span>
            </div>
            <div style="margin-bottom:10px;">
                <div style="font-size:13px; font-weight:600; margin-bottom:4px;" id="battery-summary-title">2 Balcony Inverters Detected</div>
                <div style="font-size:11px; color:var(--muted);">ecoflow1 (.96) & ecoflow2 (.105)</div>
            </div>
            <div style="border-top:1px solid var(--border); padding-top:8px; font-size:11px; color:var(--muted);">
                <span>Integrate via Home Assistant (`synologynas:8123`) or EcoFlow Developer API for live SOC % telemetry.</span>
            </div>
        </div>
    </div>

    <!-- Interactive Power Flow Diagram -->
    <div class="card" style="padding:24px 20px; margin-bottom:20px;">
        <h3 style="font-size:14px; font-weight:600; margin-bottom:16px;">Power Flow Diagram</h3>
        <div style="display:flex; justify-content:space-around; align-items:center; flex-wrap:wrap; gap:20px;">
            <!-- Node: Solar -->
            <div style="text-align:center; min-width:140px; padding:16px; background:var(--bg); border:2px solid #f59e0b; border-radius:12px;">
                <div style="font-size:32px;">☀️</div>
                <div style="font-weight:700; font-size:13px; margin-top:4px;">Solar PV</div>
                <div id="flow-solar-val" style="font-weight:700; font-size:16px; color:#d97706; margin-top:2px;">-- W</div>
                <div style="font-size:10px; color:var(--muted);">Fronius Inverter</div>
            </div>

            <div id="flow-line-solar-house" style="display:flex; flex-direction:column; align-items:center; min-width:80px;">
                <span style="font-size:20px;" id="arrow-solar-house">➡️</span>
                <span id="flow-text-solar-house" style="font-size:10px; font-weight:600; color:var(--muted);">-- W</span>
            </div>

            <!-- Node: House -->
            <div style="text-align:center; min-width:160px; padding:20px; background:var(--bg); border:2px solid #10b981; border-radius:12px; box-shadow:0 2px 8px rgba(0,0,0,0.05);">
                <div style="font-size:36px;">🏠</div>
                <div style="font-weight:700; font-size:14px; margin-top:4px;">Home Load</div>
                <div id="flow-house-val" style="font-weight:800; font-size:20px; color:#059669; margin-top:2px;">-- W</div>
                <div style="font-size:10px; color:var(--muted);">Current Total Consumption</div>
            </div>

            <div id="flow-line-grid-house" style="display:flex; flex-direction:column; align-items:center; min-width:80px;">
                <span style="font-size:20px;" id="arrow-grid-house">⬅️</span>
                <span id="flow-text-grid-house" style="font-size:10px; font-weight:600; color:var(--muted);">-- W</span>
            </div>

            <!-- Node: Grid -->
            <div style="text-align:center; min-width:140px; padding:16px; background:var(--bg); border:2px solid #2563eb; border-radius:12px;">
                <div style="font-size:32px;">🌐</div>
                <div style="font-weight:700; font-size:13px; margin-top:4px;">Public Grid</div>
                <div id="flow-grid-val" style="font-weight:700; font-size:16px; color:#2563eb; margin-top:2px;">-- W</div>
                <div id="flow-grid-state" style="font-size:10px; color:var(--muted);">Shelly Pro 3EM</div>
            </div>
        </div>
    </div>

    <!-- Shelly Pro 3EM 3-Phase Precision Table -->
    <div class="card" style="margin-bottom:20px;">
        <div style="display:flex; justify-content:space-between; align-items:center; margin-bottom:14px; flex-wrap:wrap; gap:8px;">
            <div>
                <h3 style="font-size:15px; font-weight:600; display:flex; align-items:center; gap:6px;">
                    <span>⚡ Shelly Pro 3EM (3-Phase Electrical Monitor)</span>
                    <span id="shelly-conn-dot" class="status-dot status-ready"></span>
                </h3>
                <div style="font-size:12px; color:var(--muted);">Target host: <span id="shelly-host-label">shellypro3em.fritz.box</span></div>
            </div>
            <div style="display:flex; gap:8px; font-size:12px;">
                <span class="badge" style="background:var(--bg); border:1px solid var(--border);">Grid Frequency: <strong>50.0 Hz</strong></span>
                <span class="badge" style="background:var(--bg); border:1px solid var(--border);">Total Current: <strong id="shelly-total-curr">-- A</strong></span>
                <span class="badge" style="background:var(--bg); border:1px solid var(--border);">Apparent Power: <strong id="shelly-total-aprt">-- VA</strong></span>
            </div>
        </div>

        <div style="overflow-x:auto;">
            <table>
                <thead>
                    <tr>
                        <th>Phase</th>
                        <th>Active Power (W)</th>
                        <th>Voltage (V)</th>
                        <th>Current (A)</th>
                        <th>Apparent Power (VA)</th>
                        <th>Power Factor (cos φ)</th>
                        <th>Flow Direction</th>
                    </tr>
                </thead>
                <tbody>
                    <tr>
                        <td><strong>Phase A (L1)</strong></td>
                        <td id="phase-a-act" style="font-family:monospace; font-weight:700;">-- W</td>
                        <td id="phase-a-volt">-- V</td>
                        <td id="phase-a-curr">-- A</td>
                        <td id="phase-a-aprt">-- VA</td>
                        <td id="phase-a-pf">--</td>
                        <td id="phase-a-dir">--</td>
                    </tr>
                    <tr>
                        <td><strong>Phase B (L2)</strong></td>
                        <td id="phase-b-act" style="font-family:monospace; font-weight:700;">-- W</td>
                        <td id="phase-b-volt">-- V</td>
                        <td id="phase-b-curr">-- A</td>
                        <td id="phase-b-aprt">-- VA</td>
                        <td id="phase-b-pf">--</td>
                        <td id="phase-b-dir">--</td>
                    </tr>
                    <tr>
                        <td><strong>Phase C (L3)</strong></td>
                        <td id="phase-c-act" style="font-family:monospace; font-weight:700;">-- W</td>
                        <td id="phase-c-volt">-- V</td>
                        <td id="phase-c-curr">-- A</td>
                        <td id="phase-c-aprt">-- VA</td>
                        <td id="phase-c-pf">--</td>
                        <td id="phase-c-dir">--</td>
                    </tr>
                </tbody>
            </table>
        </div>
    </div>

    <!-- JavaScript for Live Telemetry Polling -->
    <script>
    async function fetchLiveEnergy() {
        try {
            const res = await fetch('/api/energy/live');
            if (!res.ok) throw new Error('API returned ' + res.status);
            const data = await res.json();

            // Solar UI
            document.getElementById('solar-power-val').innerText = Math.round(data.solar_power_w).toLocaleString();
            document.getElementById('solar-day-val').innerText = (data.solar_day_kwh || 0).toFixed(2) + ' kWh';
            document.getElementById('solar-year-val').innerText = Math.round(data.solar_year_kwh || 0).toLocaleString() + ' kWh';
            document.getElementById('solar-total-val').innerText = ((data.solar_total_kwh || 0) / 1000).toFixed(2) + ' MWh';

            // Grid UI
            const gridVal = Math.round(data.grid_power_w);
            const absGrid = Math.abs(gridVal);
            document.getElementById('grid-power-val').innerText = absGrid.toLocaleString();
            const gridDirBadge = document.getElementById('grid-dir-badge');
            if (gridVal < -1) {
                gridDirBadge.innerText = '🟢 FEED-IN EXPORT';
                gridDirBadge.style.background = '#dcfce7';
                gridDirBadge.style.color = '#166534';
            } else {
                gridDirBadge.innerText = '🟠 GRID DRAW';
                gridDirBadge.style.background = '#ffedd5';
                gridDirBadge.style.color = '#9a3412';
            }
"#;

pub const ENERGY_1: &'static str = r#"            document.getElementById('grid-import-val').innerText = (data.grid_import_kwh || 0).toLocaleString() + ' kWh';
            document.getElementById('grid-export-val').innerText = (data.grid_export_kwh || 0).toLocaleString() + ' kWh';

            // House UI
            document.getElementById('house-power-val').innerText = Math.round(data.house_consumption_w).toLocaleString();
            document.getElementById('autarky-val').innerText = (data.autarky_pct || 0).toFixed(1) + ' %';
            document.getElementById('self-consumption-val').innerText = (data.self_consumption_pct || 0).toFixed(1) + ' %';

            // Flow Diagram
            document.getElementById('flow-solar-val').innerText = Math.round(data.solar_power_w).toLocaleString() + ' W';
            document.getElementById('flow-house-val').innerText = Math.round(data.house_consumption_w).toLocaleString() + ' W';
            document.getElementById('flow-grid-val').innerText = absGrid.toLocaleString() + ' W';
            document.getElementById('flow-grid-state').innerText = (gridVal < -1) ? 'Feeding Surplus to Grid' : 'Drawing from Grid';

            if (gridVal < -1) {
                document.getElementById('arrow-grid-house').innerText = '➡️';
                document.getElementById('flow-text-grid-house').innerText = 'Exporting ' + absGrid + ' W';
            } else {
                document.getElementById('arrow-grid-house').innerText = '⬅️';
                document.getElementById('flow-text-grid-house').innerText = 'Importing ' + absGrid + ' W';
            }

            document.getElementById('flow-text-solar-house').innerText = Math.round(data.solar_power_w) + ' W';

            // 3-Phase Shelly details
            if (data.shelly) {
                document.getElementById('shelly-host-label').innerText = data.shelly_host;
                document.getElementById('shelly-total-curr').innerText = data.shelly.total_current + ' A';
                document.getElementById('shelly-total-aprt').innerText = Math.round(data.shelly.total_aprt_power) + ' VA';

                const updatePhase = (prefix, p) => {
                    if (!p) return;
                    const elAct = document.getElementById(prefix + '-act');
                    elAct.innerText = p.act_power.toFixed(1) + ' W';
                    if (p.act_power < 0) {
                        elAct.style.color = '#16a34a';
                        document.getElementById(prefix + '-dir').innerHTML = '<span class="badge" style="background:#dcfce7; color:#166534; font-size:10px;">🟢 Feed-in</span>';
                    } else {
                        elAct.style.color = '#d97706';
                        document.getElementById(prefix + '-dir').innerHTML = '<span class="badge" style="background:#ffedd5; color:#9a3412; font-size:10px;">🟠 Draw</span>';
                    }
                    document.getElementById(prefix + '-volt').innerText = p.voltage + ' V';
                    document.getElementById(prefix + '-curr').innerText = p.current + ' A';
                    document.getElementById(prefix + '-aprt').innerText = p.aprt_power + ' VA';
                    document.getElementById(prefix + '-pf').innerText = p.pf;
                };

                updatePhase('phase-a', data.shelly.phase_a);
                updatePhase('phase-b', data.shelly.phase_b);
                updatePhase('phase-c', data.shelly.phase_c);
            }

            document.getElementById('energy-last-updated').innerText = 'Updated ' + data.timestamp;
        } catch (e) {
            document.getElementById('energy-last-updated').innerText = 'Polling error: ' + e.message;
        }
    }

    // Initial fetch on page load + periodic polling every 2500ms
    window.addEventListener('DOMContentLoaded', () => {
        fetchLiveEnergy();
        setInterval(fetchLiveEnergy, 2500);
    });
    </script>
    "#;

/// The content of the energy page.
pub open spec fn energy_html() -> Seq<char> {
    ENERGY_0@ + ENERGY_1@
}

/// The card of the Hue bridge.
pub const HUE_CARD: &'static str = r#"
        <div class="card" style="margin-top:20px;">
            <div style="display:flex; justify-content:space-between; align-items:center; margin-bottom:12px;">
                <div style="display:flex; align-items:center; gap:8px;">
                    <span style="font-size:22px;">💡</span>
                    <h3 style="margin:0;">Philips Hue Bridge Integration</h3>
                </div>
                <span class="badge" style="background:#eab308; color:#000; font-weight:700; padding:3px 8px; border-radius:4px;">Hue Zigbee Gateway</span>
            </div>
            <p style="color:var(--muted); font-size:13px; line-height:1.5; margin-bottom:14px;">
                Verbindung zur Philips Hue Bridge (<code>192.168.178.12</code>). Um HomeNode mit deiner Hue Bridge zu verbinden: drücke den runden Knopf oben auf der Bridge und klicke anschließend auf <strong>"Jetzt koppeln"</strong>.
            </p>
            <div style="display:flex; align-items:center; gap:12px;">
                <button type="button" class="btn btn-primary" id="hue-pair-btn" onclick="triggerHuePairing()">
                    🔗 Philips Hue Bridge jetzt koppeln
                </button>
                <span id="hue-pair-msg" style="font-size:13px; font-weight:600;"></span>
            </div>
            <script>
            async function triggerHuePairing() {
                const btn = document.getElementById('hue-pair-btn');
                const msg = document.getElementById('hue-pair-msg');
                btn.disabled = true;
                msg.innerText = 'Kopplung wird angefragt...';
                msg.style.color = '#0284c7';
                try {
                    const res = await fetch('/api/hue/pair', { method: 'POST' });
                    const data = await res.json();
                    if (res.ok && data.status === 'ok') {
                        msg.innerText = '🎉 ' + (data.message || 'Erfolgreich gekoppelt!');
                        msg.style.color = 'var(--status-green)';
                        setTimeout(() => window.location.reload(), 1500);
                    } else if (data.status === 'waiting_for_button') {
                        msg.innerText = '🔘 ' + data.message;
                        msg.style.color = '#f59e0b';
                        btn.disabled = false;
                    } else {
                        msg.innerText = '⚠️ ' + (data.message || data.error || 'Fehler');
                        msg.style.color = 'var(--status-red)';
                        btn.disabled = false;
                    }
                } catch(e) {
                    msg.innerText = 'Netzwerkfehler: ' + e;
                    msg.style.color = 'var(--status-red)';
                    btn.disabled = false;
                }
            }
            </script>
        </div>
        "#;

pub const MODULE_ROW_0: &'static str = r#"<tr><td><strong>"#;

pub const MODULE_ROW_1: &'static str = r#"</strong><br><small style="color:var(--muted)">"#;

pub const MODULE_ROW_2: &'static str = r#"</small></td><td><span class="status-dot "#;

pub const MODULE_ROW_3: &'static str = r#""></span>"#;

pub const MODULE_ROW_4: &'static str = r#"</td><td>"#;

pub const MODULE_ROW_5: &'static str = r#"</td><td>"#;

pub const MODULE_ROW_6: &'static str = r#"</td></tr>"#;

/// The row of a module.
pub open spec fn module_row_html(
    name: Seq<char>,
    id: Seq<char>,
    dot: Seq<char>,
    state: Seq<char>,
    version: Seq<char>,
    message: Seq<char>,
) -> Seq<char> {
    MODULE_ROW_0@ + name + MODULE_ROW_1@ + id + MODULE_ROW_2@ + dot + MODULE_ROW_3@ + state + MODULE_ROW_4@ + version + MODULE_ROW_5@ + message + MODULE_ROW_6@
}

/// The row of a module.
pub fn module_row(name: &str, id: &str, dot: &str, state: &str, version: &str, message: &str) -> (r: String)
    ensures
        r@ == module_row_html(name@, id@, dot@, state@, version@, message@),
{
    let mut out = MODULE_ROW_0.to_owned();
    out.append(name);
    out.append(MODULE_ROW_1);
    out.append(id);
    out.append(MODULE_ROW_2);
    out.append(dot);
    out.append(MODULE_ROW_3);
    out.append(state);
    out.append(MODULE_ROW_4);
    out.append(version);
    out.append(MODULE_ROW_5);
    out.append(message);
    out.append(MODULE_ROW_6);
    out
}

pub const STATUS_0: &'static str = r#"<div class="card"><h2>Integration Modules ("#;

pub const STATUS_1: &'static str = r#")</h2><div style="overflow-x:auto"><table><thead><tr><th>Module</th><th>Status</th><th>Version</th><th>Health / Details</th></tr></thead><tbody>"#;

pub const STATUS_2: &'static str = r#"</tbody></table></div></div>"#;

/// The content of the status page.
pub open spec fn status_html(count: Seq<char>, rows: Seq<char>, hue_card: Seq<char>) -> Seq<char> {
    STATUS_0@ + count + STATUS_1@ + rows + STATUS_2@ + hue_card
}

/// The content of the status page.
pub fn status(count: &str, rows: &str, hue_card: &str) -> (r: String)
    ensures
        r@ == status_html(count@, rows@, hue_card@),
{
    let mut out = STATUS_0.to_owned();
    out.append(count);
    out.append(STATUS_1);
    out.append(rows);
    out.append(STATUS_2);
    out.append(hue_card);
    out
}

pub const FAILURE_0: &'static str = r#"<div class="card"><div class="empty-state"><h3 style="color:var(--status-red)">Error loading runtime snapshot</h3><p>"#;

pub const FAILURE_1: &'static str = r#"</p></div></div>"#;

/// The content of the page that shows an error.
pub open spec fn failure_html(error: Seq<char>) -> Seq<char> {
    FAILURE_0@ + error + FAILURE_1@
}

/// The content of the page that shows an error.
pub fn failure(error: &str) -> (r: String)
    ensures
        r@ == failure_html(error@),
{
    let mut out = FAILURE_0.to_owned();
    out.append(error);
    out.append(FAILURE_1);
    out
}

/// What a module says of itself.
#[derive(Debug)]
pub struct ModuleManifest {
    pub id: String,
    pub display_name: String,
    pub version: String,
}

/// What a `ModuleManifest` stands for.
#[verifier::ext_equal]
pub struct ManifestModel {
    pub id: Seq<char>,
    pub display_name: Seq<char>,
    pub version: Seq<char>,
}

impl DeepView for ModuleManifest {
    type V = ManifestModel;

    open spec fn deep_view(&self) -> ManifestModel {
        ManifestModel {
            id: self.id@,
            display_name: self.display_name@,
            version: self.version@,
        }
    }
}

/// How a module does.
#[derive(Debug)]
pub struct ModuleHealth {
    pub state: i32,
    pub message: String,
}

/// What a `ModuleHealth` stands for.
#[verifier::ext_equal]
pub struct HealthModel {
    pub state: i32,
    pub message: Seq<char>,
}

impl DeepView for ModuleHealth {
    type V = HealthModel;

    open spec fn deep_view(&self) -> HealthModel {
        HealthModel {
            state: self.state,
            message: self.message@,
        }
    }
}

/// A module as the supervisor knows it.
#[derive(Debug)]
pub struct ModuleStatus {
    pub manifest: Option<ModuleManifest>,
    pub health: Option<ModuleHealth>,
    pub connected: bool,
}

/// What a `ModuleStatus` stands for.
#[verifier::ext_equal]
pub struct ModuleModel {
    pub manifest: Option<ManifestModel>,
    pub health: Option<HealthModel>,
    pub connected: bool,
}

impl DeepView for ModuleStatus {
    type V = ModuleModel;

    open spec fn deep_view(&self) -> ModuleModel {
        ModuleModel {
            manifest: self.manifest.deep_view(),
            health: self.health.deep_view(),
            connected: self.connected,
        }
    }
}

// ---------------------------------------------------------------------------------------
// Dashboard and energy
// ---------------------------------------------------------------------------------------

/// How many devices are active.
pub open spec fn active_devices(devices: Seq<DeviceModel>) -> nat
    decreases devices.len(),
{
    if devices.len() == 0 {
        0
    } else {
        active_devices(devices.drop_last()) + if device_data::status_of(devices.last()) == "active"@ {
            1nat
        } else {
            0nat
        }
    }
}

pub fn count_active(devices: &[DeviceRecord]) -> (r: usize)
    ensures
        r == active_devices(devices.deep_view()),
{
    let ghost all = devices.deep_view();
    let mut r: usize = 0;
    let mut i: usize = 0;
    while i < devices.len()
        invariant
            i <= devices@.len(),
            all == devices.deep_view(),
            r <= i,
            r == active_devices(all.take(i as int)),
        decreases devices@.len() - i,
    {
        assert(all.take(i + 1).drop_last() =~= all.take(i as int));
        assert(all.take(i + 1).last() == devices@[i as int].deep_view());
        if text::same(device_data::device_status(&devices[i]).as_str(), "active") {
            r = r + 1;
        }
        i = i + 1;
    }
    assert(all.take(i as int) =~= all);
    r
}

/// The dashboard: how many devices there are, and how many of them are active.
pub fn render_dashboard_page(title: &str, devices: &[DeviceRecord]) -> (r: String)
    ensures
        r@ == layout::page(
            title@,
            "dashboard"@,
            dashboard_html(text::decimal(devices@.len()), text::decimal(active_devices(devices.deep_view()))),
        ),
{
    let content = dashboard(text::count(devices.len()).as_str(), text::count(count_active(devices)).as_str());
    layout::page_layout(title, "dashboard", content.as_str())
}

/// The energy page.
pub fn render_energy_page(title: &str) -> (r: String)
    ensures
        r@ == layout::page(title@, "energy"@, energy_html()),
{
    let mut content = ENERGY_0.to_owned();
    content.append(ENERGY_1);
    layout::page_layout(title, "energy", content.as_str())
}

/// The page that shows an error in place of the page `current_tab`.
pub fn render_error(title: &str, current_tab: &str, error: &str) -> (r: String)
    ensures
        r@ == layout::page(title@, current_tab@, failure_html(error@)),
{
    layout::page_layout(title, current_tab, failure(error).as_str())
}

// ---------------------------------------------------------------------------------------
// Status
// ---------------------------------------------------------------------------------------

/// The name of a state of health and the class of its mark.
pub open spec fn health_look(state: i32) -> (Seq<char>, Seq<char>) {
    if state == 1 {
        ("Starting"@, "status-starting"@)
    } else if state == 2 {
        ("Ready"@, "status-ready"@)
    } else if state == 3 {
        ("Degraded"@, "status-starting"@)
    } else if state == 4 {
        ("Stopped"@, "status-error"@)
    } else if state == 5 {
        ("Failed"@, "status-error"@)
    } else {
        ("Unknown"@, "status-error"@)
    }
}

/// The name of a state of health and the class of its mark.
pub fn format_health_state(state: i32) -> (r: (&'static str, &'static str))
    ensures
        (r.0@, r.1@) == health_look(state),
{
    match state {
        1 => ("Starting", "status-starting"),
        2 => ("Ready", "status-ready"),
        3 => ("Degraded", "status-starting"),
        4 => ("Stopped", "status-error"),
        5 => ("Failed", "status-error"),
        _ => ("Unknown", "status-error"),
    }
}

/// How a module does: a module that is not connected, or that never told, does not do well.
pub open spec fn module_look(m: ModuleModel) -> (Seq<char>, Seq<char>) {
    if !m.connected {
        ("Disconnected"@, "status-error"@)
    } else {
        match m.health {
            Some(h) => health_look(h.state),
            None => ("Unknown"@, "status-error"@),
        }
    }
}

fn module_look_of(m: &ModuleStatus) -> (r: (&'static str, &'static str))
    ensures
        (r.0@, r.1@) == module_look(m.deep_view()),
{
    if !m.connected {
        ("Disconnected", "status-error")
    } else {
        match &m.health {
            Some(h) => format_health_state(h.state),
            None => ("Unknown", "status-error"),
        }
    }
}

/// The row of a module.
pub open spec fn module_line(m: ModuleModel) -> Seq<char> {
    let (name, id, version) = match m.manifest {
        Some(x) => (x.display_name, x.id, x.version),
        None => ("Unknown"@, "n/a"@, "-"@),
    };
    let message = match m.health {
        Some(h) => h.message,
        None => "-"@,
    };
    module_row_html(name, id, module_look(m).1, module_look(m).0, version, message)
}

fn module_line_of(m: &ModuleStatus) -> (r: String)
    ensures
        r@ == module_line(m.deep_view()),
{
    let (state, dot) = module_look_of(m);
    let (name, id, version) = match &m.manifest {
        Some(x) => (x.display_name.as_str(), x.id.as_str(), x.version.as_str()),
        None => ("Unknown", "n/a", "-"),
    };
    let message = match &m.health {
        Some(h) => h.message.as_str(),
        None => "-",
    };
    module_row(name, id, dot, state, version, message)
}

/// The rows of all modules.
pub open spec fn module_lines(modules: Seq<ModuleModel>) -> Seq<char>
    decreases modules.len(),
{
    if modules.len() == 0 {
        Seq::empty()
    } else {
        module_lines(modules.drop_last()) + module_line(modules.last())
    }
}

/// The module is that of the Hue bridge.
pub open spec fn is_hue(m: ModuleModel) -> bool {
    match m.manifest {
        Some(x) => x.id == "philips-hue"@,
        None => false,
    }
}

/// One of the modules is that of the Hue bridge.
pub open spec fn has_hue(modules: Seq<ModuleModel>) -> bool {
    exists|i: int| 0 <= i < modules.len() && is_hue(#[trigger] modules[i])
}

fn module_lines_of(modules: &[ModuleStatus]) -> (r: String)
    ensures
        r@ == module_lines(modules.deep_view()),
{
    let ghost all = modules.deep_view();
    let mut r = text::empty();
    let mut i: usize = 0;
    while i < modules.len()
        invariant
            i <= modules@.len(),
            all == modules.deep_view(),
            r@ == module_lines(all.take(i as int)),
        decreases modules@.len() - i,
    {
        assert(all.take(i + 1).drop_last() =~= all.take(i as int));
        assert(all.take(i + 1).last() == modules@[i as int].deep_view());
        r.append(module_line_of(&modules[i]).as_str());
        i = i + 1;
    }
    assert(all.take(i as int) =~= all);
    r
}

fn has_hue_among(modules: &[ModuleStatus]) -> (r: bool)
    ensures
        r == has_hue(modules.deep_view()),
{
    let ghost all = modules.deep_view();
    let mut i: usize = 0;
    while i < modules.len()
        invariant
            i <= modules@.len(),
            all == modules.deep_view(),
            forall|k: int| 0 <= k < i ==> !is_hue(#[trigger] all[k]),
        decreases modules@.len() - i,
    {
        assert(all[i as int] == modules@[i as int].deep_view());
        match &modules[i].manifest {
            Some(x) => {
                if text::same(x.id.as_str(), "philips-hue") {
                    return true;
                }
            },
            None => {},
        }
        i = i + 1;
    }
    false
}

/// What the page on the modules shows: how many there are, each of them, and the card of the Hue bridge
/// where its module is among them.
pub open spec fn status_content(modules: Seq<ModuleModel>) -> Seq<char> {
    status_html(
        text::decimal(modules.len()),
        module_lines(modules),
        if has_hue(modules) {
            HUE_CARD@
        } else {
            ""@
        },
    )
}

/// The status page: the modules and how they do, and the card of the Hue bridge where its
/// module is there.
pub fn render_status_page(title: &str, modules: &[ModuleStatus]) -> (r: String)
    ensures
        r@ == layout::page(
            title@,
            "status"@,
            status_content(modules.deep_view()),
        ),
{
    let card = if has_hue_among(modules) {
        HUE_CARD
    } else {
        ""
    };
    let content = status(text::count(modules.len()).as_str(), module_lines_of(modules).as_str(), card);
    layout::page_layout(title, "status", content.as_str())
}

}

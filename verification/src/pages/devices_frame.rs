//! The devices page as a whole, but for the list.

use vstd::prelude::*;

verus! {

broadcast use vstd::string::group_string_axioms;

/// What the page shows while no device is known.
pub const NO_DEVICES: &'static str = r#"
        <div class="toolbar">
            <h2>Detected Devices (0)</h2>
            <form action="/scan" method="POST" id="scan-form" style="margin:0;">
                <button type="submit" id="scan-btn" class="btn btn-primary">
                    <span>🔄</span> <span id="scan-label">Scan Network Now</span>
                </button>
            </form>
        </div>
        <div class="card"><div class="empty-state"><h3>No devices detected yet</h3><p>Click "Scan Network Now" or wait for background discovery.</p></div></div>"#;

pub const SCRIPT_0: &'static str = r#"
    <script>
    const allDevices = "#;

pub const SCRIPT_1: &'static str = r#";
    const allProducts = "#;

pub const SCRIPT_2: &'static str = r#";
    let allRooms = "#;

pub const SCRIPT_3: &'static str = r#";
    const allGoveeStates = "#;

pub const SCRIPT_4: &'static str = r#";
    let currentCategory = 'all';
    let currentStatusFilter = 'all';
    let currentScannerFilter = 'all';
    let currentRoomFilter = 'all';
    let currentFloorFilter = 'all';
    let selectedDeviceId = null;

    function selectCategory(cat, el) {
        currentCategory = cat;
        document.querySelectorAll('.pill').forEach(p => p.classList.remove('active'));
        el.classList.add('active');
        filterDevices();
    }

    function setStatusFilter(status, el) {
        currentStatusFilter = status;
        document.querySelectorAll('.status-pill').forEach(p => p.classList.remove('active'));
        el.classList.add('active');
        filterDevices();
    }

    function setScannerFilter(sc) {
        currentScannerFilter = sc.toLowerCase();
        filterDevices();
    }

    function setRoomFilter(r) {
        currentRoomFilter = (r || 'all').toLowerCase();
        filterDevices();
    }

    function setFloorFilter(f) {
        currentFloorFilter = (f || 'all').toLowerCase();
        filterDevices();
    }

    function formatRelativeTime(iso) {
        if (!iso) return 'Unknown';
        const date = new Date(iso);
        if (isNaN(date.getTime())) return iso;
        const now = new Date();
        const diffSec = Math.floor((now - date) / 1000);
        if (diffSec < 0 || diffSec < 60) return 'Just now';
        const diffMin = Math.floor(diffSec / 60);
        if (diffMin < 60) return diffMin + 'm ago';
        const diffHours = Math.floor(diffMin / 60);
        if (diffHours < 24) return diffHours + 'h ago';
        const diffDays = Math.floor(diffHours / 24);
        if (diffDays < 7) return diffDays + 'd ago';
        return date.toLocaleDateString(undefined, { month: 'short', day: 'numeric', year: 'numeric' });
    }

    function formatFullDate(iso) {
        if (!iso) return 'Not recorded';
        const date = new Date(iso);
        if (isNaN(date.getTime())) return iso;
        return date.toLocaleString(undefined, {
            month: 'short',
            day: 'numeric',
            year: 'numeric',
            hour: '2-digit',
            minute: '2-digit'
        });
    }

    function filterDevices() {
        const q = (document.getElementById('device-search').value || '').toLowerCase();
        const groups = document.querySelectorAll('.device-group');

        groups.forEach(group => {
            const cat = group.getAttribute('data-category');
            const matchesCat = (currentCategory === 'all' || currentCategory === cat);

            let visibleRows = 0;
            const rows = group.querySelectorAll('tbody tr');
            rows.forEach(row => {
                const text = row.innerText.toLowerCase();
                const matchesSearch = !q || text.includes(q);
                const status = row.getAttribute('data-status') || 'active';
                const isIgnored = row.getAttribute('data-ignored') === 'true';

                let matchesStatus = false;
                if (currentStatusFilter === 'ignored') {
                    matchesStatus = isIgnored;
                } else {
                    matchesStatus = !isIgnored && (currentStatusFilter === 'all' || currentStatusFilter === status);
                }

                const rowSources = (row.getAttribute('data-sources') || '').toLowerCase();
                const matchesScanner = (currentScannerFilter === 'all'
                    || rowSources.includes(currentScannerFilter)
                    || (currentScannerFilter === 'ping' && rowSources.includes('active-probe'))
                    || (currentScannerFilter === 'matter' && rowSources.includes('matter-mdns'))
                    || (currentScannerFilter === 'bthome' && (rowSources.includes('bthome') || rowSources.includes('shelly-gateway')))
                    || (currentScannerFilter === 'shelly-gateway' && rowSources.includes('shelly-gateway'))
                    || (currentScannerFilter === 'philips-hue' && (rowSources.includes('philips-hue') || rowSources.includes('hue')))
                    || (currentScannerFilter === 'mobile-scout' && rowSources.includes('mobile-scout')));

                const rowRoom = (row.getAttribute('data-room') || '').toLowerCase();
                const rowFloor = (row.getAttribute('data-floor') || '').toLowerCase();

                let matchesRoom = false;
                if (currentRoomFilter === 'all') {
                    matchesRoom = true;
                } else if (currentRoomFilter === 'unassigned') {
                    matchesRoom = (rowRoom === '');
                } else {
                    matchesRoom = (rowRoom === currentRoomFilter);
                }

                let matchesFloor = (currentFloorFilter === 'all' || rowFloor === currentFloorFilter);

                if (matchesSearch && matchesStatus && matchesScanner && matchesRoom && matchesFloor) {
                    row.style.display = '';
                    visibleRows++;
                } else {
                    row.style.display = 'none';
                }
            });

            if (matchesCat && visibleRows > 0) {
                group.style.display = '';
            } else {
                group.style.display = 'none';
            }
        });
    }

    function selectDevice(deviceId) {
        selectedDeviceId = deviceId;
        window.location.hash = deviceId;

        document.querySelectorAll('.device-item').forEach(el => {
            if (el.getAttribute('data-id') === deviceId) {
                el.classList.add('active-device');
            } else {
                el.classList.remove('active-device');
            }
        });

        const dev = allDevices.find(d => d.device_id === deviceId);
        if (!dev) return;

        renderInspector(dev);
    }

    function renderInspector(dev) {
        const panel = document.getElementById('inspector-content');

        let webBtn = '';
        if (dev.web_url) {
            webBtn = `<div style="margin-top:10px;"><a href="${dev.web_url}" target="_blank" class="btn btn-primary btn-sm" style="font-size:12px; width:100%; justify-content:center;">🌐 Open Web Interface</a></div>`;
        }

        // Category options generator
        const standardCategories = [
            { key: 'button', label: '🔘 Buttons & Remote Controls' },
            { key: 'contact-sensor', label: '🚪 Doors & Windows' },
            { key: 'sensor', label: '👁️ Sensors & Detectors' },
            { key: 'phone', label: '📱 Smartphones' },
            { key: 'tablet', label: '📟 Tablets' },
            { key: 'computer', label: '💻 Computers & Laptops' },
            { key: 'lighting', label: '💡 Smart Lighting' },
            { key: 'smart-plug', label: '🔌 Smart Plugs & Sockets' },
            { key: 'display', label: '⏰ Smart Clocks & Displays' },
            { key: 'sensor', label: '👁️ Sensors & Detectors' },
            { key: 'energy', label: '☀️ Solar & Energy Systems' },
            { key: 'appliance', label: '🧺 Home Appliances' },
            { key: 'radio', label: '📻 LoRa & Mesh Radios' },
            { key: 'hub', label: '🎛️ Smart Home Hubs' },
            { key: 'nas', label: '🗄️ Network Storage & NAS' },
            { key: 'router', label: '🌐 Routers & Gateways' },
            { key: 'voip-phone', label: '☎️ VoIP Phones' },
            { key: 'camera', label: '📷 Cameras' },
            { key: 'audio', label: '🔊 Audio & Speakers' },
            { key: 'streaming', label: '📺 TV & Streaming' },
            { key: 'printer', label: '🖨️ Printers' },
            { key: '3d-printer', label: '🧊 3D Printers & Makers' },
            { key: 'vpn', label: '🛡️ VPN & Virtual Devices' },
            { key: 'iot', label: '💡 Smart Home & IoT' },
            { key: 'network-device', label: '🔌 Network & Other Devices' }
        ];

        let catOptions = '';
        let foundCat = false;
        standardCategories.forEach(c => {
            const sel = (dev.category === c.key) ? 'selected' : '';
            if (dev.category === c.key) foundCat = true;
            catOptions += `<option value="${c.key}" ${sel}>${c.label}</option>`;
        });
        if (!foundCat && dev.category) {
            catOptions += `<option value="${dev.category}" selected>Current: ${dev.category_title || dev.category}</option>`;
        }

        let categorySelectorBox = `
            <div style="background:var(--bg); border:1px solid var(--border); border-radius:6px; padding:6px 10px; margin-top:8px;">
                <label style="font-size:11px; font-weight:600; color:var(--muted); display:block; margin-bottom:4px;">Change Device Category</label>
                <div style="display:flex; gap:6px; align-items:center;">
                    <select id="insp-change-cat" class="form-control" style="font-size:11px; padding:4px 6px; flex:1;">
                        ${catOptions}
                    </select>
                    <button type="button" class="btn btn-sm btn-primary" style="font-size:11px; padding:4px 10px;" onclick="updateDeviceCategory('${dev.doc_key}', '${dev.device_id}')">Update</button>
                </div>
                <span id="cat-status" style="font-size:11px; margin-top:2px; display:block;"></span>
            </div>
        `;

        // Hardware Product Profile (compact, omitted for routers to prevent clutter)
        let productCard = '';
        if (dev.product && dev.product.category !== 'router' && dev.category !== 'router') {
            const p = dev.product;
            let matterBadge = '';
            if (p.matter_device_type) {
                matterBadge = `<span class="badge" style="background:#059669; color:#fff; font-size:10px; margin-top:2px;">✨ Matter: ${escapeHtml(p.matter_device_type)}</span> `;
            }
            let vendorLink = escapeHtml(p.vendor_name);
            if (p.vendor_website) {
                vendorLink = `<a href="${p.vendor_website}" target="_blank" style="color:var(--primary); text-decoration:none; font-weight:600;">${p.vendor_icon || '🏢'} ${escapeHtml(p.vendor_name)} ↗</a>`;
            }
            let docBtn = '';
            if (p.documentation_url) {
                docBtn = `<div style="margin-top:4px;"><a href="${p.documentation_url}" target="_blank" class="btn btn-sm" style="background:var(--badge-bg); color:var(--text); font-size:11px; text-decoration:none;">📖 Product Manual ↗</a></div>`;
            }
            let modelText = p.model_number ? `<span style="font-size:11px; color:var(--muted);">&bull; Model: <code>${escapeHtml(p.model_number)}</code></span>` : '';

            productCard = `
                <div class="inspector-sec" style="background:var(--primary-bg); border:1px solid rgba(37,99,235,0.2); border-radius:8px; padding:10px; margin-top:10px;">
                    <div style="font-size:13px; font-weight:700;">🏷️ ${escapeHtml(p.name)} ${modelText}</div>
                    <div style="font-size:11px; margin-top:2px;">${vendorLink}</div>
                    ${matterBadge}
                    ${docBtn}
                </div>
            `;
        }

        // Matter Operational Fabrics (Fabric IDs, Node IDs, Ports, and Custom Friendly Labels)
        let matterFabricsCard = '';
        if (dev.matter_fabrics && dev.matter_fabrics.length > 0) {
            let fabricsListHtml = dev.matter_fabrics.map(f => `
                <div style="background:var(--bg); border:1px solid var(--border); border-radius:6px; padding:8px 10px; margin-top:6px;">
                    <div style="display:flex; justify-content:space-between; align-items:center;">
                        <div style="font-weight:600; font-size:13px;">
                            <span>${f.fabric_icon}</span> ${escapeHtml(f.fabric_name)}
                        </div>
                        <button type="button" class="btn-sm" style="font-size:10px; padding:2px 6px; cursor:pointer;" onclick="renameMatterFabric('${f.fabric_id}', '${escapeAttr(f.fabric_name)}', '${escapeAttr(f.fabric_icon)}')">✏️ Rename</button>
                    </div>
                    <div style="margin-top:6px; font-size:11px; color:var(--muted); display:grid; grid-template-columns: 80px 1fr; gap: 3px 6px;">
                        <span style="font-weight:600;">Fabric ID:</span> <code>${f.fabric_id}</code>
                        <span style="font-weight:600;">Node ID:</span> <code>${f.node_id}</code>
                        <span style="font-weight:600;">Port:</span> <code>${f.port}</code>
                        <span style="font-weight:600;">Interface:</span> <code>${f.interface}</code>
                    </div>
                </div>
            `).join('');

            matterFabricsCard = `
                <div class="inspector-sec" style="background:linear-gradient(135deg, rgba(5,150,105,0.06) 0%, rgba(16,185,129,0.06) 100%); border:1px solid rgba(5,150,105,0.25); border-radius:8px; padding:10px; margin-top:10px;">
                    <div class="inspector-title" style="color:#059669; font-weight:700; margin-bottom:2px; display:flex; justify-content:space-between; align-items:center;">
                        <span>✨ Matter Operational Fabrics (${dev.matter_fabrics.length})</span>
                    </div>
                    <div style="font-size:11px; color:var(--muted); margin-bottom:6px;">
                        Active operational fabrics discovered via mDNS (<code>_matter._tcp</code>).
                    </div>
                    ${fabricsListHtml}
                </div>
            `;
        }

        // Product assignment dropdown
        let productOptions = '<option value="">-- Associate Product / Model --</option>';
        if (typeof allProducts !== 'undefined') {
            allProducts.forEach(prod => {
                const sel = (dev.product && dev.product.id === prod.id) ? 'selected' : '';
                productOptions += `<option value="${prod.id}" ${sel}>${prod.vendor_name || prod.vendor_id}: ${prod.name}</option>`;
            });
        }
        let assignBox = `
            <div style="margin-top:8px; display:flex; gap:6px;">
                <select id="insp-assign-prod" class="form-control" style="font-size:11px; padding:4px 6px;">
                    ${productOptions}
                </select>
                <button type="button" class="btn btn-sm" style="font-size:11px; padding:4px 8px;" onclick="assignProduct('${dev.device_id}', '${dev.doc_key}')">Assign</button>
            </div>
        `;

        // Secondary / Linked Interfaces
        let isZigbee = dev.protocol === 'zigbee' || (dev.sources && dev.sources.includes('philips-hue')) || (dev.metadata && (dev.metadata.protocol === 'zigbee' || dev.metadata.source === 'philips-hue'));
        let isBle = (dev.sources && (dev.sources.includes('bthome') || dev.sources.includes('mobile-ble'))) || dev.protocol === 'ble';
"#;

pub const SCRIPT_5: &'static str = r#"        let bridgeIp = (dev.metadata && (dev.metadata.bridge_ip || dev.metadata.gateway)) || '';

        function formatDevIp(rawIp) {
            if (rawIp && rawIp !== 'Layer 2' && rawIp !== '-' && rawIp.trim() !== '' && !rawIp.includes('(')) {
                return rawIp;
            }
            if (isZigbee) {
                return bridgeIp ? `Zigbee (via ${bridgeIp})` : 'Zigbee Mesh';
            }
            if (isBle) {
                return 'Bluetooth LE (BLE)';
            }
            if (dev.category === 'switch') {
                return 'Layer 2 (Unmanaged)';
            }
            return 'Non-IP Device';
        }

        let isPrimaryBle = isBle || (dev.sources && dev.sources.includes('ble')) || dev.device_id.startsWith('mobile-ble-');
        let devNameLow = dev.display_name.toLowerCase();
        let isWlan = devNameLow.includes('wlan') || devNameLow.includes('wifi') || dev.display_name.endsWith('-2')
            || dev.category === 'tablet' || dev.category === 'phone' || dev.category === 'smart-plug' || dev.category === 'wearable'
            || devNameLow.includes('ipad') || devNameLow.includes('iphone') || devNameLow.includes('plug') || devNameLow.includes('plus1');
        let primaryTypeLabel = isPrimaryBle ? 'Bluetooth LE' : (isWlan ? 'WLAN' : 'LAN/Main');
        let primaryTypeIcon = isPrimaryBle ? '🔵' : (primaryTypeLabel === 'WLAN' ? '📶' : '🔌');
        let primaryIpDisplay = formatDevIp(dev.ip);
        let ifacesHtml = `
            <div class="iface-card">
                <strong>${primaryTypeIcon} Primary Interface (${primaryTypeLabel})</strong><br>
                <code>${primaryIpDisplay}</code> ${dev.mac ? '&bull; <small>' + dev.mac + '</small>' : ''}<br>
                <small style="color:var(--muted)">${dev.vendor || 'Unknown Vendor'} ${dev.hostname ? '&bull; ' + dev.hostname : ''}</small>
            </div>
        `;

        if (dev.secondaries && dev.secondaries.length > 0) {
            dev.secondaries.forEach(sec => {
                let isSecBle = (sec.protocol === 'ble') || (sec.source === 'mobile-scout') || (sec.source === 'mobile-ble') || sec.device_id.startsWith('mobile-ble-') || sec.ip === 'Bluetooth LE' || !sec.ip || sec.ip === '-';
                let secIpDisplay = isSecBle ? 'Bluetooth LE' : formatDevIp(sec.ip);
                let secTitle = isSecBle ? 'Linked Interface (Bluetooth LE)' : 'Linked Interface (WLAN/Secondary)';
                let secIcon = isSecBle ? '🔵' : '📶';
                let secMeta = sec.metadata || {};
                let extraBadges = '';
                if (sec.rssi || secMeta.rssi) extraBadges += ` &bull; <small>📶 ${sec.rssi || secMeta.rssi} dBm</small>`;
                if (sec.scout || secMeta.scout) extraBadges += ` &bull; <small>📱 ${escapeHtml(sec.scout || secMeta.scout)}</small>`;
                if (secMeta.battery) extraBadges += ` &bull; <small>🔋 ${secMeta.battery}%</small>`;

                ifacesHtml += `
                    <div class="iface-card">
                        <div style="display:flex; justify-content:space-between; align-items:center;">
                            <strong>${secIcon} ${secTitle}</strong>
                            <button class="btn-sm" style="color:var(--status-red); border:none; padding:2px; cursor:pointer;" onclick="unlinkInterface('${dev.device_id}', '${sec.device_id}')">Unlink</button>
                        </div>
                        <code>${secIpDisplay}</code> ${sec.mac ? '&bull; <small>' + sec.mac + '</small>' : ''}${extraBadges}<br>
                        <small style="color:var(--muted)">${escapeHtml(sec.name || sec.vendor || 'Secondary Device')} ${sec.hostname ? '&bull; ' + escapeHtml(sec.hostname) : ''}</small>
                    </div>
                `;
            });
        }

        // Candidate merge box
        let candidateBox = '';
        if (dev.candidate) {
            let isCandBle = (dev.candidate.protocol === 'ble') || (dev.candidate.source === 'mobile-scout') || (dev.candidate.source === 'mobile-ble') || dev.candidate.device_id.startsWith('mobile-ble-') || !dev.candidate.ip || dev.candidate.ip === '-';
            let isCurrentBle = isPrimaryBle;
            let mergeTypeLabel = (isCandBle || isCurrentBle) ? 'WLAN + BLE' : 'LAN + WLAN';
            let primaryArg = (isCurrentBle && !isCandBle) ? dev.candidate.device_id : dev.device_id;
            let linkedArg = (isCurrentBle && !isCandBle) ? dev.device_id : dev.candidate.device_id;
            let candIpDisplay = (dev.candidate.ip && dev.candidate.ip !== '-') ? dev.candidate.ip : 'Bluetooth LE';

            candidateBox = `
                <div class="merge-box">
                    <strong>💡 Merge Candidate (${mergeTypeLabel}):</strong><br>
                    <span>${escapeHtml(dev.candidate.name)} (<code>${escapeHtml(candIpDisplay)}</code>)</span><br>
                    <button class="btn btn-sm btn-primary" style="margin-top:6px;" onclick="linkInterface('${escapeAttr(primaryArg)}', '${escapeAttr(linkedArg)}')">
                        🔗 Merge Interfaces (${mergeTypeLabel})
                    </button>
                </div>
            `;
        }

        // Manual interface link dropdown
        let currentSecondaryIds = (dev.secondaries || []).map(s => s.device_id);
        let linkableOptions = allDevices
            .filter(other => other.device_id !== dev.device_id && !currentSecondaryIds.includes(other.device_id))
            .map(other => {
                let otherIsBle = (other.sources && other.sources.includes('ble')) || other.device_id.startsWith('mobile-ble-');
                let otherIp = (other.ip && other.ip !== '-') ? other.ip : (otherIsBle ? 'Bluetooth LE' : 'No IP');
                return `<option value="${escapeAttr(other.device_id)}">${escapeHtml(other.display_name)} (${escapeHtml(otherIp)})</option>`;
            }).join('');

        let manualLinkHtml = `
            <div style="margin-top:10px; padding-top:10px; border-top:1px dashed var(--border);">
                <label style="font-size:11px; font-weight:600; color:var(--muted); display:block; margin-bottom:4px;">
                    🔗 Weiteres Interface manuell verknüpfen:
                </label>
                <div style="display:flex; gap:6px;">
                    <select id="insp-manual-link-select" class="form-control" style="font-size:11px; flex:1; cursor:pointer;">
                        <option value="">-- Gerät als Interface auswählen --</option>
                        ${linkableOptions}
                    </select>
                    <button type="button" class="btn btn-sm" style="background:var(--badge-bg); color:var(--text); border:1px solid var(--border); font-size:11px; cursor:pointer;" onclick="linkManualInterface('${escapeAttr(dev.device_id)}')">
                        Verknüpfen
                    </button>
                </div>
            </div>
        `;

        let statusBadge = '';
        if (dev.is_active) {
            statusBadge = `
                <div style="display:flex; align-items:center; justify-content:space-between; margin-top:8px; padding:6px 10px; background:#ecfdf5; border:1px solid #a7f3d0; border-radius:6px;">
                    <div style="display:flex; align-items:center; gap:6px;">
                        <span style="display:inline-block; width:8px; height:8px; border-radius:50%; background:#10b981;"></span>
                        <span style="font-weight:600; font-size:12px; color:#065f46;">Active (Online)</span>
                    </div>
                    <span style="font-size:11px; color:#047857;" title="${dev.last_seen || ''}">Seen: ${formatRelativeTime(dev.last_seen)}</span>
                </div>
            `;
        } else if (dev.status === 'archive') {
            let hasValidIp = dev.ip && dev.ip !== 'Layer 2' && dev.ip !== '-' && dev.ip.trim() !== '' && !dev.ip.includes('(');
            let badgeLabel = isZigbee ? 'Zigbee' : (isBle ? 'BLE' : (dev.category === 'switch' ? 'L2 Switch' : 'No IP'));
            let pingBtnHtml = hasValidIp
                ? `<button type="button" class="btn-sm btn-ping" style="font-size:11px; padding:2px 8px; cursor:pointer;" onclick="pingDevice('${dev.device_id}', this)" title="Ping device to check reachability">📡 Ping</button>`
                : `<span class="badge" style="background:#f1f5f9; color:#94a3b8; font-size:10px; padding:2px 6px; border:1px solid #e2e8f0;" title="Gerät ohne direkte IP-Adresse">${badgeLabel}</span>`;
            statusBadge = `
                <div style="display:flex; align-items:center; justify-content:space-between; margin-top:8px; padding:6px 10px; background:#f8fafc; border:1px dashed #cbd5e1; border-radius:6px;">
                    <div style="display:flex; align-items:center; gap:6px;">
                        <span style="font-size:13px;">📦</span>
                        <div>
                            <span style="font-weight:600; font-size:12px; color:#64748b;">Router-Archiv (FRITZ!Box)</span><br>
                            <span style="font-size:10px; color:var(--muted);">Nur in FRITZ!Box Historie registriert</span>
                        </div>
                    </div>
                    <div style="display:flex; align-items:center; gap:8px;">
                        <span style="font-size:11px; color:#94a3b8;" title="${dev.last_seen || ''}">${formatRelativeTime(dev.last_seen)}</span>
                        ${pingBtnHtml}
                    </div>
                </div>
            `;
        } else {
            let hasValidIp = dev.ip && dev.ip !== 'Layer 2' && dev.ip !== '-' && dev.ip.trim() !== '' && !dev.ip.includes('(');
            let badgeLabel = isZigbee ? 'Zigbee' : (isBle ? 'BLE' : (dev.category === 'switch' ? 'L2 Switch' : 'No IP'));
            let pingBtnHtml = hasValidIp
                ? `<button type="button" class="btn-sm btn-ping" style="font-size:11px; padding:2px 8px; cursor:pointer;" onclick="pingDevice('${dev.device_id}', this)" title="Ping device to check reachability">📡 Ping</button>`
                : `<span class="badge" style="background:#f1f5f9; color:#94a3b8; font-size:10px; padding:2px 6px; border:1px solid #e2e8f0;" title="Gerät ohne direkte IP-Adresse">${badgeLabel}</span>`;
            statusBadge = `
                <div style="display:flex; align-items:center; justify-content:space-between; margin-top:8px; padding:6px 10px; background:#f8fafc; border:1px solid #cbd5e1; border-radius:6px;">
                    <div style="display:flex; align-items:center; gap:6px;">
                        <span style="display:inline-block; width:8px; height:8px; border-radius:50%; background:#94a3b8;"></span>
                        <span style="font-weight:600; font-size:12px; color:#475569;">Former Device (Offline)</span>
                    </div>
                    <div style="display:flex; align-items:center; gap:8px;">
                        <span style="font-size:11px; color:#64748b;" title="${dev.last_seen || ''}">Last seen: ${formatRelativeTime(dev.last_seen)}</span>
                        ${pingBtnHtml}
                    </div>
                </div>
            `;
        }

        let historyBox = `
            <div class="inspector-sec" style="background:var(--bg); border:1px solid var(--border); border-radius:6px; padding:8px 10px; margin-top:8px;">
                <div style="font-size:11px; font-weight:600; color:var(--muted); margin-bottom:4px;">⏱️ Device History</div>
                <div style="display:grid; grid-template-columns: 85px 1fr; gap: 3px 6px; font-size:11px;">
                    <span style="color:var(--muted);">First Seen:</span> <span title="${dev.first_seen || ''}">${formatFullDate(dev.first_seen)}</span>
                    <span style="color:var(--muted);">Last Seen:</span> <span title="${dev.last_seen || ''}">${formatFullDate(dev.last_seen)}</span>
                </div>
                ${!dev.is_active ? `
                    <div style="margin-top:8px; text-align:right;">
                        <button type="button" class="btn btn-sm" style="color:var(--status-red); border-color:#fca5a5; font-size:11px; cursor:pointer;" onclick="forgetDevice('${dev.device_id}', '${escapeAttr(dev.display_name)}')">
                            🗑️ Remove from History
                        </button>
                    </div>
                ` : ''}
            </div>
        `;

        const sourceMap = {
            'bthome': { name: 'BTHome BLE Interface', icon: '📶', desc: 'Bluetooth Low Energy V2 Sensor-Protokoll' },
            'shelly-gateway': { name: 'Shelly BLE Gateway', icon: '📡', desc: 'Lokales Shelly Gen3/Gen2 Outbound WebSocket Gateway' },
            'bthome-v2': { name: 'BTHome V2', icon: '📶', desc: 'BTHome Version 2 BLE Broadcast' },
            'ble': { name: 'Bluetooth LE Interface', icon: '🔵', desc: 'Bluetooth Low Energy Advertisement' },
            'arp': { name: 'ARP Interface', icon: '📡', desc: 'MAC-Adresse & IP-Zuordnung über Layer-2 ARP' },
            'ping': { name: 'ICMP/TCP Ping Interface', icon: '⚡', desc: 'Aktive IP-Erreichbarkeit' },
            'mdns': { name: 'mDNS / Bonjour Interface', icon: '🔍', desc: 'Hostname & lokale Netzwerkdienste' },
            'ssdp': { name: 'SSDP / UPnP Interface', icon: '🌐', desc: 'UPnP Device Description & Hersteller-Information' },
            'fritzbox-tr064': { name: 'FRITZ!Box TR-064 Interface', icon: '🔀', desc: 'Router-Topologie, L2-Switch & DHCP-Eintrag' },
            'matter': { name: 'Matter Operational Interface', icon: '✨', desc: 'Matter Node & Fabric-Information' },
            'matter-mdns': { name: 'Matter DNS-SD Interface', icon: '✨', desc: 'Matter Operational Discovery' },
            'home-assistant': { name: 'Home Assistant Interface', icon: '🏠', desc: 'Home Assistant Hub / API' },
            'mdns_homeassistant': { name: 'Home Assistant mDNS', icon: '🏠', desc: 'Home Assistant Service Discovery' },
            'http-probe': { name: 'HTTP Web Interface', icon: '🌐', desc: 'Weboberfläche auf Standardports' },
            'configuration': { name: 'Konfiguration', icon: '⚙️', desc: 'Statisch konfigurierter Eintrag' },
            'philips-hue': { name: 'Philips Hue Bridge Interface', icon: '💡', desc: 'Philips Hue Zigbee Bridge Leuchte / Sensor' },
            'hue': { name: 'Philips Hue Bridge Interface', icon: '💡', desc: 'Philips Hue Zigbee Bridge Leuchte / Sensor' },
            'documentation': { name: 'Benutzer-Notiz', icon: '📝', desc: 'Dokumentierter Geräteeintrag' }
        };

        let devSources = (dev.sources && dev.sources.length > 0) ? dev.sources : (dev.source ? [dev.source] : ['unknown']);
        let sourcesItems = devSources.map(s => {
            const info = sourceMap[s] || { name: s, icon: '🔌', desc: 'Netzwerkbeobachtung' };
            return `
"#;

pub const SCRIPT_6: &'static str = r#"                <div style="display:flex; align-items:flex-start; gap:8px; padding:4px 0; border-bottom:1px solid var(--border);">
                    <span style="font-size:14px; line-height:1.2;">${info.icon}</span>
                    <div style="flex:1;">
                        <div style="font-weight:600; font-size:11px;">${info.name}</div>
                        <div style="font-size:10px; color:var(--muted);">${info.desc}</div>
                    </div>
                </div>
            `;
        }).join('');

        let scannerBox = `
            <div class="inspector-sec" style="background:var(--bg); border:1px solid var(--border); border-radius:6px; padding:8px 10px; margin-top:8px;">
                <div style="font-size:11px; font-weight:600; color:var(--muted); margin-bottom:4px;">🔌 Interfaces (${devSources.length})</div>
                ${sourcesItems}
            </div>
        `;

        let telemetryBox = '';
        const isBTHomeDevice = devSources.includes('bthome') || devSources.includes('bthome-v2') || (dev.metadata && (dev.metadata.source === 'bthome' || !!dev.metadata.shelly_gateway)) || dev.device_id.startsWith('bthome-');
        const isHueDevice = isZigbee || devSources.includes('philips-hue') || devSources.includes('hue') || (dev.metadata && (dev.metadata.source === 'philips-hue' || dev.metadata.bridge_ip || dev.metadata.hue_light_id)) || dev.device_id.startsWith('hue-');

        if (dev.metadata && (dev.metadata.battery || dev.metadata.button_event || dev.metadata.gateway || dev.metadata.shelly_gateway || dev.metadata.protocol || dev.metadata.temperature_c || dev.metadata.humidity_pct || dev.metadata.illuminance_lux || dev.metadata.contact_state || dev.metadata.rssi)) {
            let rows = [];
            if (dev.metadata.button_event) {
                let btnName = dev.metadata.button_event;
                if (btnName === 'press') btnName = 'Single Press (Einfachklick)';
                else if (btnName === 'double_press') btnName = 'Double Press (Doppelklick)';
                else if (btnName === 'triple_press') btnName = 'Triple Press (Dreifachklick)';
                else if (btnName === 'long_press') btnName = 'Long Press (Langer Druck)';
                else if (btnName === 'hold') btnName = 'Hold (Gehalten)';
                rows.push(`<div><span style="color:var(--muted);">Letzte Aktion:</span> <strong style="color:var(--primary); font-size:12px;">🔘 ${btnName}</strong></div>`);
            }
            if (dev.metadata.battery) {
                let bat = parseInt(dev.metadata.battery, 10) || 0;
                let batColor = bat > 50 ? 'var(--status-green)' : (bat > 20 ? 'var(--status-yellow)' : 'var(--status-red)');
                rows.push(`<div><span style="color:var(--muted);">Batterie:</span> <strong style="color:${batColor};">🔋 ${bat}%</strong></div>`);
            }
            if (dev.metadata.contact_state) {
                let open = dev.metadata.contact_state === 'open';
                rows.push(`<div><span style="color:var(--muted);">Kontakt:</span> <strong>${open ? '🚪 Offen' : '🚪 Geschlossen'}</strong></div>`);
            }
            if (dev.metadata.temperature_c) {
                rows.push(`<div><span style="color:var(--muted);">Temperatur:</span> <strong>🌡️ ${dev.metadata.temperature_c} °C</strong></div>`);
            }
            if (dev.metadata.humidity_pct) {
                rows.push(`<div><span style="color:var(--muted);">Luftfeuchtigkeit:</span> <strong>💧 ${dev.metadata.humidity_pct} %</strong></div>`);
            }
            if (dev.metadata.illuminance_lux) {
                rows.push(`<div><span style="color:var(--muted);">Helligkeit:</span> <strong>☀️ ${dev.metadata.illuminance_lux} Lux</strong></div>`);
            }
            if (dev.metadata.rssi) {
                rows.push(`<div><span style="color:var(--muted);">Signalstärke:</span> <strong>📶 ${dev.metadata.rssi} dBm</strong></div>`);
            }
            if (isBTHomeDevice && (dev.metadata.shelly_gateway || dev.metadata.gateway)) {
                let gw = dev.metadata.shelly_gateway || dev.metadata.gateway;
                rows.push(`<div><span style="color:var(--muted);">Shelly BLE Gateway:</span> <code>${gw}</code></div>`);
            } else if (isHueDevice && (dev.metadata.bridge_ip || dev.metadata.gateway)) {
                let gw = dev.metadata.bridge_ip || dev.metadata.gateway;
                rows.push(`<div><span style="color:var(--muted);">Hue Bridge:</span> <code>${gw}</code></div>`);
            } else if (dev.metadata.gateway) {
                rows.push(`<div><span style="color:var(--muted);">Gateway:</span> <code>${dev.metadata.gateway}</code></div>`);
            }
            if (dev.metadata.protocol) {
                let proto = dev.metadata.protocol;
                let badgeStyle = "background:#e2e8f0; color:#334155; font-size:10px; padding:1px 5px; border-radius:3px;";
                if (proto.toLowerCase() === 'zigbee') {
                    badgeStyle = "background:rgba(234,179,8,0.2); color:#b45309; font-weight:600; font-size:10px; padding:1px 5px; border-radius:3px;";
                } else if (proto.toLowerCase().includes('bthome') || proto.toLowerCase().includes('ble')) {
                    badgeStyle = "background:rgba(59,130,246,0.15); color:#2563eb; font-weight:600; font-size:10px; padding:1px 5px; border-radius:3px;";
                }
                rows.push(`<div><span style="color:var(--muted);">Protokoll:</span> <span class="badge" style="${badgeStyle}">${proto}</span></div>`);
            }

            let boxTitle = '📶 BTHome Live Telemetrie';
            let boxBorderLeft = 'var(--primary)';
            let titleColor = 'var(--primary)';

            if (isHueDevice) {
                boxTitle = '💡 Philips Hue / Zigbee Verbindung';
                boxBorderLeft = '#eab308';
                titleColor = '#b45309';
            } else if (!isBTHomeDevice) {
                boxTitle = '📊 Telemetrie & Verbindung';
                boxBorderLeft = '#64748b';
                titleColor = 'var(--text)';
            }

            telemetryBox = `
                <div class="inspector-sec" style="background:var(--bg); border:1px solid var(--border); border-left:3px solid ${boxBorderLeft}; border-radius:6px; padding:8px 10px; margin-top:8px;">
                    <div style="font-size:11px; font-weight:700; color:${titleColor}; margin-bottom:6px; display:flex; align-items:center; gap:6px;">
                        <span>${boxTitle}</span>
                    </div>
                    <div style="display:flex; flex-direction:column; gap:4px; font-size:11px;">
                        ${rows.join('')}
                    </div>
                </div>
            `;
        }

        let hueControlCard = '';
        const isHueActuatorOrLight = isHueDevice && (dev.category === 'lighting' || dev.kind === 'lighting' || dev.device_id.startsWith('hue-light-') || (dev.metadata && (dev.metadata.hue_light_id || dev.metadata.on !== undefined)));
        if (isHueActuatorOrLight && dev.metadata && (dev.metadata.hue_light_id || dev.device_id.startsWith('hue-light-') || dev.metadata.on !== undefined)) {
            const lightId = dev.metadata.hue_light_id || dev.device_id.replace('hue-light-', '');
            const isOn = dev.metadata.on === 'true';
            const bri = dev.metadata.brightness ? `${Math.round(parseInt(dev.metadata.brightness, 10) / 254 * 100)}%` : '';
            const reachable = dev.metadata.reachable !== 'false';
            const isPlug = (dev.metadata.model && dev.metadata.model.toLowerCase().includes('plug')) || (dev.display_name && (dev.display_name.toLowerCase().includes('steckdose') || dev.display_name.toLowerCase().includes('plug') || dev.display_name.toLowerCase().includes('ventilator')));
            const cardIcon = isPlug ? '🔌' : '💡';
            const cardTitle = isPlug ? 'Philips Hue Aktor / Steckdose' : 'Philips Hue Lampe';
            hueControlCard = `
                <div class="inspector-sec" style="background:linear-gradient(135deg, rgba(234,179,8,0.12) 0%, rgba(245,158,11,0.05) 100%); border:1px solid rgba(234,179,8,0.35); border-radius:8px; padding:10px; margin-top:8px;">
                    <div style="display:flex; justify-content:space-between; align-items:center;">
                        <div>
                            <div style="font-weight:700; font-size:13px; color:#b45309; display:flex; align-items:center; gap:6px;">
                                <span>${cardIcon}</span> ${cardTitle}
                            </div>
                            <div style="font-size:11px; color:var(--muted); margin-top:2px;">
                                Zustand: <strong>${isOn ? '🟢 Eingeschaltet' : '⚪ Ausgeschaltet'}</strong> ${bri ? '&bull; ' + bri : ''} ${!reachable ? '&bull; ⚠️ Offline' : ''}
                            </div>
                        </div>
                        <button type="button" class="btn btn-sm ${isOn ? '' : 'btn-primary'}" style="font-size:11px; padding:4px 10px; cursor:pointer;" onclick="toggleHueLight('${lightId}')">
                            ${isOn ? 'Ausschalten 🔌' : 'Einschalten 💡'}
                        </button>
                    </div>
                </div>
            `;
        }

        let goveeControlCard = '';
        let devIp = dev.ip;
        let devSecondaries = dev.secondaries || [];
        let goveeIp = null;
        if (devIp && allGoveeStates[devIp]) {
            goveeIp = devIp;
        } else {
            for (let s of devSecondaries) {
                if (s.ip && allGoveeStates[s.ip]) {
                    goveeIp = s.ip;
                    break;
                }
            }
        }
        if (!goveeIp && devIp && (
            (dev.hostname && dev.hostname.toLowerCase().includes('govee')) ||
            (dev.display_name && dev.display_name.toLowerCase().includes('govee')) ||
            (dev.vendor && dev.vendor.toLowerCase().includes('govee'))
        )) {
            goveeIp = devIp;
        }

        if (goveeIp) {
            const gState = allGoveeStates[goveeIp] || { on: false, brightness: 100, color: { r: 255, g: 255, b: 255 }, color_temp_kelvin: 0 };
            const isOn = gState.on;
            const bri = gState.brightness || 100;
            const col = gState.color || { r: 255, g: 255, b: 255 };
            const colorCss = `rgb(${col.r}, ${col.g}, ${col.b})`;
            const sku = gState.sku ? ` (${escapeHtml(gState.sku)})` : '';

            goveeControlCard = `
                <div class="inspector-sec" style="background:linear-gradient(135deg, rgba(37,99,235,0.08) 0%, rgba(59,130,246,0.04) 100%); border:1px solid rgba(37,99,235,0.3); border-radius:8px; padding:12px; margin-top:8px;">
                    <div style="display:flex; justify-content:space-between; align-items:center; margin-bottom:10px;">
                        <div>
                            <div style="font-weight:700; font-size:13px; color:#1e40af; display:flex; align-items:center; gap:6px;">
                                <span style="display:inline-block; width:12px; height:12px; border-radius:50%; background:${colorCss}; border:1px solid rgba(0,0,0,0.2);"></span>
                                <span>💡 Govee LAN Steuerung${sku}</span>
                            </div>
                            <div style="font-size:11px; color:var(--muted); margin-top:2px;">
                                IP: <code>${escapeHtml(goveeIp)}</code> &bull; UDP Port 4003 &bull; Zustand: <strong>${isOn ? '🟢 Eingeschaltet' : '⚪ Ausgeschaltet'}</strong>
                            </div>
                        </div>
                        <button type="button" class="btn btn-sm ${isOn ? 'btn-primary' : ''}" style="font-size:11px; padding:4px 12px; cursor:pointer;" onclick="toggleGoveeLight('${goveeIp}', this)">
                            ${isOn ? '💡 An' : '⚪ Aus'}
                        </button>
                    </div>

                    <div style="display:flex; align-items:center; gap:8px; margin-bottom:10px; font-size:12px;">
                        <span style="font-size:11px; color:var(--muted); min-width:55px;">Helligkeit:</span>
                        <input type="range" min="1" max="100" value="${bri}" style="flex:1; cursor:pointer;" onchange="setGoveeBrightness('${goveeIp}', this.value)" oninput="this.nextElementSibling.innerText = this.value + '%'" />
                        <span style="min-width:35px; text-align:right; font-weight:600; font-size:11px;">${bri}%</span>
                    </div>

                    <div style="display:flex; align-items:center; gap:6px; flex-wrap:wrap;">
                        <span style="font-size:11px; color:var(--muted); margin-right:4px;">Presets:</span>
                        <button type="button" class="btn-sm" style="background:#ffddaa; border:1px solid #f59e0b; font-size:10px; padding:2px 6px; cursor:pointer; border-radius:4px;" onclick="setGoveeTemp('${goveeIp}', 2700)" title="Warmweiß">Warm (2700K)</button>
                        <button type="button" class="btn-sm" style="background:#fff4e6; border:1px solid #cbd5e1; font-size:10px; padding:2px 6px; cursor:pointer; border-radius:4px;" onclick="setGoveeTemp('${goveeIp}', 4000)" title="Neutralweiß">Neutral (4000K)</button>
                        <button type="button" class="btn-sm" style="background:#f1f5f9; border:1px solid #cbd5e1; font-size:10px; padding:2px 6px; cursor:pointer; border-radius:4px;" onclick="setGoveeTemp('${goveeIp}', 6500)" title="Kaltweiß">Kalt (6500K)</button>
                        <button type="button" class="btn-sm" style="background:#ef4444; color:#fff; border:none; font-size:10px; padding:2px 6px; cursor:pointer; border-radius:4px;" onclick="setGoveeColor('${goveeIp}', 255, 0, 0)">Rot</button>
                        <button type="button" class="btn-sm" style="background:#10b981; color:#fff; border:none; font-size:10px; padding:2px 6px; cursor:pointer; border-radius:4px;" onclick="setGoveeColor('${goveeIp}', 0, 255, 100)">Grün</button>
                        <button type="button" class="btn-sm" style="background:#3b82f6; color:#fff; border:none; font-size:10px; padding:2px 6px; cursor:pointer; border-radius:4px;" onclick="setGoveeColor('${goveeIp}', 0, 100, 255)">Blau</button>
                        <button type="button" class="btn-sm" style="background:#8b5cf6; color:#fff; border:none; font-size:10px; padding:2px 6px; cursor:pointer; border-radius:4px;" onclick="setGoveeColor('${goveeIp}', 160, 32, 240)">Lila</button>
                        <input type="color" value='#ffffff' style="width:24px; height:24px; padding:0; border:none; border-radius:4px; cursor:pointer; margin-left:auto;" title="Eigene Farbe wählen" onchange="handleGoveeCustomColor('${goveeIp}', this.value)" />
                    </div>
"#;

pub const SCRIPT_7: &'static str = r#"                </div>
            `;
        }

        let roomOptionsHtml = `<option value="">-- Kein Raum zugewiesen --</option>`;
        const floorList = ['Dachgeschoss', 'Obergeschoss', 'Erdgeschoss', 'Keller', 'Außenbereich', 'Sonstige'];
        floorList.forEach(fl => {
            const inFloor = allRooms.filter(r => (r.floor || 'Sonstige') === fl);
            if (inFloor.length > 0) {
                roomOptionsHtml += `<optgroup label="${fl}">`;
                inFloor.forEach(r => {
                    const isSel = (dev.room && dev.room.toLowerCase() === r.name.toLowerCase()) ? 'selected' : '';
                    roomOptionsHtml += `<option value="${escapeAttr(r.name)}" ${isSel}>${r.icon || '📍'} ${escapeHtml(r.name)}</option>`;
                });
                roomOptionsHtml += `</optgroup>`;
            }
        });
        if (dev.room && !allRooms.some(r => r.name.toLowerCase() === dev.room.toLowerCase())) {
            roomOptionsHtml += `<option value="${escapeAttr(dev.room)}" selected>📍 ${escapeHtml(dev.room)} (Benutzerdefiniert)</option>`;
        }

        panel.innerHTML = `
            <div>
                <div style="display:flex; align-items:center; gap:8px; margin-bottom:4px;">
                    <span style="font-size:24px;">${dev.category_icon}</span>
                    <div>
                        <h3 id="insp-header-title" style="font-size:16px;">${dev.display_name}</h3>
                        <span class="badge badge-kind">${dev.category_title}</span>
                    </div>
                </div>
                ${statusBadge}
                ${hueControlCard}
                ${goveeControlCard}
                ${telemetryBox}
                ${historyBox}
                ${scannerBox}
                ${categorySelectorBox}
                ${webBtn}
                ${productCard}
                ${matterFabricsCard}
                ${assignBox}
            </div>

            <!-- Network Interfaces -->
            <div class="inspector-sec">
                <div class="inspector-title">
                    <span>Network Interfaces (${(dev.secondaries ? dev.secondaries.length : 0) + 1})</span>
                </div>
                ${ifacesHtml}
                ${candidateBox}
                ${manualLinkHtml}
            </div>

            <!-- Device Identity & Documentation -->
            <div class="inspector-sec">
                <div class="inspector-title">
                    <span>Identity & Documentation</span>
                    <span id="doc-status" style="font-size:11px;"></span>
                </div>
                <div style="margin-bottom:8px;">
                    <label style="font-size:11px; color:var(--muted); font-weight:600;">Device Name (Optional override)</label>
                    <input type="text" id="insp-name" class="form-control" value="${escapeAttr(dev.custom_name || '')}" placeholder="${escapeAttr(dev.display_name)}" />
                </div>
                <div style="margin-bottom:8px;">
                    <div style="display:flex; justify-content:space-between; align-items:center; margin-bottom:4px;">
                        <label style="font-size:11px; color:var(--muted); font-weight:600;">Raum / Standort (Room / Location)</label>
                        <a href="javascript:void(0)" onclick="openRoomModal()" style="font-size:11px; color:var(--primary); text-decoration:none; font-weight:600;">⚙️ Räume verwalten</a>
                    </div>
                    <select id="insp-room" class="form-control" style="cursor:pointer;">
                        ${roomOptionsHtml}
                    </select>
                </div>
                <div style="margin-bottom:8px;">
                    <label style="font-size:11px; color:var(--muted); font-weight:600;">Manual / Documentation URL (Optional)</label>
                    <input type="url" id="insp-manual-url" class="form-control" value="${escapeAttr(dev.manual_url)}" placeholder="https://..." />
                </div>
                <div style="margin-bottom:8px;">
                    <label style="font-size:11px; color:var(--muted); font-weight:600;">Device Notes (Optional)</label>
                    <textarea id="insp-notes" class="form-control" placeholder="Installation location, credentials hint, firmware version...">${escapeHtml(dev.notes)}</textarea>
                </div>
                <button type="button" class="btn btn-sm btn-primary" onclick="saveInspectorNotes('${dev.doc_key}')">💾 Save Details</button>
            </div>

            <!-- Device Management & Privacy (Block Neighbor Devices) -->
            <div class="inspector-sec" style="background:var(--bg); border:1px solid var(--border); border-radius:6px; padding:10px; margin-top:10px;">
                <div class="inspector-title" style="margin-bottom:6px;">
                    <span>⚙️ Geräteverwaltung & Filter</span>
                </div>
                ${dev.is_ignored ? `
                    <div style="background:rgba(239, 68, 68, 0.08); border:1px solid rgba(239, 68, 68, 0.25); border-radius:6px; padding:8px; margin-bottom:8px; font-size:11px;">
                        <strong style="color:var(--status-red);">🚫 Nachbargerät (Ignoriert)</strong>
                        <div style="color:var(--muted); margin-top:2px;">Dieses Gerät ist als Nachbargerät blockiert. Signale werden verworfen und das Gerät erscheint nicht in der Standardliste.</div>
                    </div>
                    <button type="button" class="btn btn-sm" style="background:var(--surface); border:1px solid var(--border); font-size:11px;" onclick="unignoreDevice('${dev.device_id}', '${dev.doc_key}')">
                        ✅ Nicht mehr ignorieren (Wiederherstellen)
                    </button>
                ` : `
                    <div style="font-size:11px; color:var(--muted); margin-bottom:8px;">
                        Signale fremder Geräte (z.B. BLE-Sensoren vom Nachbarn) können hier dauerhaft ignoriert werden:
                    </div>
                    <button type="button" class="btn btn-sm" style="background:#fee2e2; color:#b91c1c; border:1px solid #fca5a5; font-size:11px;" onclick="ignoreDevice('${dev.device_id}', '${dev.doc_key}', '${escapeAttr(dev.display_name)}')">
                        🚫 Als Nachbargerät ignorieren
                    </button>
                `}
                <div style="margin-top:10px; padding-top:8px; border-top:1px solid var(--border);">
                    <button type="button" class="btn btn-sm" style="color:var(--status-red); border:1px solid var(--border); font-size:11px;" onclick="forgetDevice('${dev.device_id}', '${escapeAttr(dev.display_name)}')">
                        🗑️ Aus Verlauf löschen (Forget)
                    </button>
                </div>
            </div>

            <!-- Analyzer & Port Scan -->
            <div class="inspector-sec">
                <div class="inspector-title">
                    <span>Device Analyzer & Port Scan</span>
                </div>
                <button type="button" class="btn btn-sm" id="btn-run-analyzer" onclick="runInspectorAnalyzer('${dev.device_id}', '${escapeAttr(dev.display_name)}')">
                    🔍 Scan 19 Ports & Analyze
                </button>
                <div id="inspector-analysis-results" style="margin-top:10px;"></div>
            </div>
        `;
    }

    function escapeHtml(text) {
        return (text || '').replace(/&/g, "&amp;").replace(/</g, "&lt;").replace(/>/g, "&gt;");
    }

    function escapeAttr(text) {
        return (text || '').replace(/"/g, "&quot;").replace(/'/g, "&#39;");
    }

    async function updateDeviceCategory(docKey, deviceId) {
        const sel = document.getElementById('insp-change-cat');
        if (!sel) return;
        const newCat = sel.value;
        const statusEl = document.getElementById('cat-status');
        if (statusEl) {
            statusEl.innerText = 'Updating category...';
            statusEl.style.color = 'var(--muted)';
        }

        try {
            const key = docKey || deviceId;
            const res = await fetch('/api/devices/' + encodeURIComponent(key) + '/category', {
                method: 'POST',
                headers: { 'Content-Type': 'application/json' },
                body: JSON.stringify({ category: newCat })
            });
            if (res.ok) {
                if (statusEl) {
                    statusEl.innerText = 'Category updated! Reloading...';
                    statusEl.style.color = 'var(--status-green)';
                }
                setTimeout(() => {
                    window.location.reload();
                }, 400);
            } else {
                if (statusEl) {
                    statusEl.innerText = 'Failed to update category';
                    statusEl.style.color = 'var(--status-red)';
                }
            }
        } catch (e) {
            if (statusEl) {
                statusEl.innerText = 'Network error: ' + e;
                statusEl.style.color = 'var(--status-red)';
            }
        }
    }

    async function saveInspectorNotes(docKey) {
        const nameInput = document.getElementById('insp-name');
        const customName = nameInput ? nameInput.value.trim() : '';
        const roomInput = document.getElementById('insp-room');
        const room = roomInput ? roomInput.value.trim() : '';
        const notes = document.getElementById('insp-notes').value;
        const manualUrl = document.getElementById('insp-manual-url').value;
        const statusEl = document.getElementById('doc-status');

        statusEl.innerText = 'Saving...';
        statusEl.style.color = 'var(--muted)';
        try {
            const res = await fetch('/api/devices/' + encodeURIComponent(docKey) + '/documentation', {
                method: 'POST',
                headers: { 'Content-Type': 'application/json' },
                body: JSON.stringify({ name: customName, room: room, notes: notes, manual_url: manualUrl })
            });
            if (res.ok) {
                statusEl.innerText = 'Saved!';
                statusEl.style.color = 'var(--status-green)';
                const dev = allDevices.find(d => d.doc_key === docKey || d.device_id === docKey);
                if (dev) {
                    dev.custom_name = customName;
                    dev.room = room;
                    dev.display_name = customName || dev.original_name || dev.display_name;
                    dev.notes = notes;
                    dev.manual_url = manualUrl;
                    const titleEl = document.getElementById('insp-header-title');
                    if (titleEl) titleEl.innerText = dev.display_name;
                    const rowNameEl = document.querySelector(`tr[data-id="${dev.device_id}"] .dev-display-name`);
                    if (rowNameEl) rowNameEl.innerText = dev.display_name;
                    const tr = document.querySelector(`tr[data-id="${dev.device_id}"]`);
                    if (tr) {
                        tr.setAttribute('data-room', room);
                        const matchedRoom = allRooms.find(r => r.name.toLowerCase() === room.toLowerCase());
                        tr.setAttribute('data-floor', matchedRoom ? (matchedRoom.floor || '') : '');
                    }
                }
                setTimeout(() => { statusEl.innerText = ''; }, 2000);
            } else {
                statusEl.innerText = 'Error saving';
                statusEl.style.color = 'var(--status-red)';
            }
        } catch (e) {
            statusEl.innerText = 'Network error: ' + e;
            statusEl.style.color = 'var(--status-red)';
        }
    }

    async function pingDevice(deviceId, btn) {
        const originalText = btn ? btn.innerHTML : '📡 Ping';
        if (btn) {
            btn.disabled = true;
            btn.innerHTML = '⏳ Pinging...';
        }

        try {
            const res = await fetch('/api/devices/' + encodeURIComponent(deviceId) + '/ping', {
                method: 'POST'
            });
            const data = await res.json();

            if (data.reachable) {
                const rttText = data.rtt_ms ? (data.rtt_ms.toFixed(1) + ' ms') : data.method;
                if (btn) {
                    btn.innerHTML = '✅ Online (' + rttText + ')';
                    btn.style.borderColor = '#10b981';
                    btn.style.color = '#065f46';
                    btn.style.background = '#ecfdf5';
                }

                // Update in allDevices memory
                const dev = allDevices.find(d => d.device_id === deviceId || d.doc_key === deviceId);
                if (dev) {
                    dev.is_active = true;
                    dev.status = 'active';
                    dev.last_seen = data.last_seen || new Date().toISOString();

                    // If inspector is open for this device, re-render it
                    if (selectedDeviceId === dev.device_id) {
                        renderInspector(dev);
                    }
                }

                // Update table row indicators
                const tr = document.querySelector(`tr[data-id="${deviceId}"]`);
                if (tr) {
                    tr.setAttribute('data-status', 'active');
                    tr.setAttribute('data-active', 'true');
                    const dot = tr.querySelector('.status-dot');
                    if (dot) {
                        dot.style.background = '#10b981';
                        dot.title = 'Online / Active';
                    }
                    const badges = tr.querySelectorAll('.badge');
                    badges.forEach(b => {
                        if (b.innerText.includes('Offline')) b.remove();
                    });
                }

                setTimeout(() => {
                    if (btn) {
                        btn.disabled = false;
                        if (btn.classList.contains('btn-ping')) {
                            btn.style.display = 'none';
                        } else {
                            btn.innerHTML = originalText;
                            btn.style.borderColor = '';
                            btn.style.color = '';
                            btn.style.background = '';
                        }
                    }
                }, 3500);
            } else {
                if (btn) {
                    btn.innerHTML = '❌ Offline';
                    btn.style.borderColor = '#f87171';
                    btn.style.color = '#991b1b';
                    btn.style.background = '#fef2f2';
                    setTimeout(() => {
                        btn.disabled = false;
                        btn.innerHTML = originalText;
                        btn.style.borderColor = '';
                        btn.style.color = '';
"#;

pub const SCRIPT_8: &'static str = r#"                        btn.style.background = '';
                    }, 2500);
                }
            }
        } catch (err) {
            if (btn) {
                btn.disabled = false;
                btn.innerHTML = '⚠️ Error';
                setTimeout(() => { btn.innerHTML = originalText; }, 2000);
            }
        }
    }

    async function linkInterface(primaryId, linkedId) {
        try {
            const res = await fetch('/api/devices/link', {
                method: 'POST',
                headers: { 'Content-Type': 'application/json' },
                body: JSON.stringify({ primary_id: primaryId, linked_id: linkedId })
            });
            if (res.ok) {
                window.location.reload();
            }
        } catch (e) {
            alert('Failed to link interfaces: ' + e);
        }
    }

    async function unlinkInterface(primaryId, linkedId) {
        try {
            const res = await fetch('/api/devices/unlink', {
                method: 'POST',
                headers: { 'Content-Type': 'application/json' },
                body: JSON.stringify({ primary_id: primaryId, linked_id: linkedId })
            });
            if (res.ok) {
                window.location.reload();
            }
        } catch (e) {
            alert('Failed to unlink interfaces: ' + e);
        }
    }

    function linkManualInterface(primaryId) {
        const sel = document.getElementById('insp-manual-link-select');
        if (!sel || !sel.value) {
            alert('Bitte wähle ein Gerät aus der Liste aus.');
            return;
        }
        linkInterface(primaryId, sel.value);
    }

    async function runInspectorAnalyzer(deviceId, deviceName) {
        const btn = document.getElementById('btn-run-analyzer');
        const resultsEl = document.getElementById('inspector-analysis-results');
        btn.disabled = true;
        resultsEl.innerHTML = '<div style="font-size:12px; color:var(--muted);"><span class="status-dot status-starting"></span>Probing 19 ports & service banners...</div>';

        try {
            const res = await fetch('/api/devices/' + encodeURIComponent(deviceId) + '/analyze', { method: 'POST' });
            if (!res.ok) {
                resultsEl.innerHTML = '<div style="color:var(--status-red); font-size:12px;">Analysis failed.</div>';
                btn.disabled = false;
                return;
            }
            const data = await res.json();

            let portsHtml = '';
            if (data.open_ports && data.open_ports.length > 0) {
                portsHtml = data.open_ports.map(p => '<span class="badge" style="background:#dcfce7; color:#166534; font-weight:600; padding:2px 6px; margin:2px 3px 2px 0; font-size:10px;">✓ Port ' + p.port + ': ' + p.service + '</span>').join('');
            } else {
                portsHtml = '<span style="color:var(--muted); font-size:11px;">No open ports found.</span>';
            }

            let httpInfo = '';
            if (data.http_title || data.http_server) {
                httpInfo = '<div style="margin-top:6px; font-size:11px; color:var(--muted);">' +
                    (data.http_title ? '<strong>Title:</strong> ' + data.http_title + '<br>' : '') +
                    (data.http_server ? '<strong>Server:</strong> ' + data.http_server : '') +
                    '</div>';
            }

            window._currentAnalyzedScript = {
                filename: data.suggested_filename,
                content: data.suggested_rhai_script
            };

            resultsEl.innerHTML = `
                <div style="background:var(--bg); border:1px solid var(--border); border-radius:6px; padding:8px; font-size:12px;">
                    <div style="font-weight:600; font-size:11px; margin-bottom:4px; display:flex; justify-content:space-between;">
                        <span>🔌 Port Scan Results</span>
                        <span class="badge" style="font-size:10px;">${data.open_ports ? data.open_ports.length : 0} / ${data.total_ports_scanned || 19} Open</span>
                    </div>
                    <div>${portsHtml}</div>
                    ${httpInfo}
                </div>
                <div style="display:flex; justify-content:space-between; align-items:center; margin-top:8px;">
                    <span style="font-size:11px; font-weight:600;">Draft Script (${data.suggested_filename}):</span>
                    <div>
                        <button class="btn-sm" style="font-size:10px;" onclick="copyRhaiScript()">📋 Copy</button>
                        <button class="btn-sm btn-web" style="font-size:10px;" onclick="saveAnalyzedDefinition()">💾 Save</button>
                    </div>
                </div>
                <pre class="code-box" style="margin-top:4px;"><code id="rhai-code-preview">${escapeHtml(data.suggested_rhai_script)}</code></pre>
                <div id="save-def-status" style="font-size:11px; margin-top:4px; color:var(--status-green);"></div>
            `;
            btn.disabled = false;
        } catch (e) {
            resultsEl.innerHTML = '<div style="color:var(--status-red); font-size:12px;">Analysis error: ' + e + '</div>';
            btn.disabled = false;
        }
    }

    function copyRhaiScript() {
        if (window._currentAnalyzedScript) {
            navigator.clipboard.writeText(window._currentAnalyzedScript.content);
            alert('Rhai script copied to clipboard!');
        }
    }

    async function saveAnalyzedDefinition() {
        if (!window._currentAnalyzedScript) return;
        const status = document.getElementById('save-def-status');
        status.innerText = 'Saving definition script...';

        try {
            const res = await fetch('/api/definitions/save', {
                method: 'POST',
                headers: { 'Content-Type': 'application/json' },
                body: JSON.stringify(window._currentAnalyzedScript)
            });
            if (res.ok) {
                status.innerText = 'Saved to definitions/devices/' + window._currentAnalyzedScript.filename + '! Click "Scan Network Now" to apply.';
            } else {
                status.innerText = 'Failed to save definition file.';
            }
        } catch (e) {
            status.innerText = 'Error saving script: ' + e;
        }
    }

    async function assignProduct(deviceId, docKey) {
        const prodId = document.getElementById('insp-assign-prod').value;
        if (!prodId) return;
        const res = await fetch(`/api/devices/${deviceId}/assign-product`, {
            method: 'POST',
            headers: { 'Content-Type': 'application/json' },
            body: JSON.stringify({ doc_key: docKey, product_id: prodId })
        });
        if (res.ok) {
            window.location.reload();
        }
    }

    async function renameMatterFabric(fabricId, currentName, currentIcon) {
        const newName = prompt(`Enter friendly label for Matter Fabric (${fabricId}):`, currentName);
        if (!newName || !newName.trim()) return;
        const newIcon = prompt(`Enter emoji/icon for ${newName}:`, currentIcon || '✨') || '✨';

        try {
            const res = await fetch('/api/matter/fabrics/' + encodeURIComponent(fabricId), {
                method: 'POST',
                headers: { 'Content-Type': 'application/json' },
                body: JSON.stringify({ name: newName.trim(), icon: newIcon.trim() })
            });
            if (res.ok) {
                window.location.reload();
            } else {
                alert('Failed to update Matter fabric label.');
            }
        } catch (e) {
            alert('Network error: ' + e);
        }
    }

    async function forgetDevice(deviceId, deviceName) {
        if (!confirm(`Are you sure you want to remove "${deviceName || deviceId}" from history?\n\nIf this device connects to the network again in the future, it will be rediscovered.`)) {
            return;
        }

        try {
            const res = await fetch('/api/devices/' + encodeURIComponent(deviceId) + '/forget', {
                method: 'POST'
            });
            if (res.ok) {
                window.location.reload();
            } else {
                alert('Failed to remove device from history.');
            }
        } catch (e) {
            alert('Network error: ' + e);
        }
    }

    async function ignoreDevice(deviceId, docKey, name) {
        if (!confirm(`Möchtest du "${name || deviceId}" ignorieren?\n\nSignale dieses Geräts (z.B. BLE-Sensoren vom Nachbarn) werden blockiert und das Gerät wird in der Hauptliste ausgeblendet.`)) {
            return;
        }
        try {
            const id = docKey || deviceId;
            const res = await fetch('/api/devices/' + encodeURIComponent(id) + '/ignore', {
                method: 'POST',
                headers: { 'Content-Type': 'application/json' },
                body: JSON.stringify({ name: name, reason: 'Nachbargerät' })
            });
            if (res.ok) {
                window.location.reload();
            } else {
                alert('Fehler beim Ignorieren des Geräts.');
            }
        } catch (e) {
            alert('Netzwerkfehler: ' + e);
        }
    }

    async function unignoreDevice(deviceId, docKey) {
        try {
            const id = docKey || deviceId;
            const res = await fetch('/api/devices/' + encodeURIComponent(id) + '/unignore', {
                method: 'POST'
            });
            if (res.ok) {
                window.location.reload();
            } else {
                alert('Fehler beim Wiederherstellen des Geräts.');
            }
        } catch (e) {
            alert('Netzwerkfehler: ' + e);
        }
    }

    async function toggleHueLight(lightId) {
        try {
            const res = await fetch('/api/hue/lights/' + encodeURIComponent(lightId) + '/toggle', { method: 'POST' });
            const json = await res.json();
            if (res.ok && json.status === 'ok') {
                setTimeout(() => window.location.reload(), 250);
            } else {
                alert('Hue Fehler: ' + (json.message || json.error || 'Schalten fehlgeschlagen'));
            }
        } catch(e) {
            alert('Netzwerkfehler: ' + e);
        }
    }

    async function toggleGoveeLight(ip, btn) {
        if (btn) btn.disabled = true;
        try {
            const res = await fetch('/api/govee/lights/' + encodeURIComponent(ip) + '/toggle', { method: 'POST' });
            const data = await res.json();
            if (res.ok && data.status === 'ok') {
                if (allGoveeStates[ip]) {
                    allGoveeStates[ip].on = data.on;
                } else {
                    allGoveeStates[ip] = { on: data.on, brightness: 100 };
                }
                const dev = allDevices.find(d => d.device_id === selectedDeviceId);
                if (dev) renderInspector(dev);
            } else {
                alert('Govee Fehler: ' + (data.error || 'Schalten fehlgeschlagen'));
            }
        } catch(e) {
            alert('Govee UDP Fehler: ' + e);
        } finally {
            if (btn) btn.disabled = false;
        }
    }

    async function setGoveeBrightness(ip, val) {
        try {
            const b = parseInt(val, 10);
            await fetch('/api/govee/lights/' + encodeURIComponent(ip) + '/brightness', {
                method: 'POST',
                headers: { 'Content-Type': 'application/json' },
                body: JSON.stringify({ brightness: b })
            });
            if (allGoveeStates[ip]) {
                allGoveeStates[ip].brightness = b;
                allGoveeStates[ip].on = true;
            }
        } catch(e) {
            console.error('Govee Brightness Error:', e);
        }
    }

    async function setGoveeColor(ip, r, g, b) {
        try {
            await fetch('/api/govee/lights/' + encodeURIComponent(ip) + '/color', {
                method: 'POST',
                headers: { 'Content-Type': 'application/json' },
                body: JSON.stringify({ r: r, g: g, b: b })
            });
            if (allGoveeStates[ip]) {
                allGoveeStates[ip].color = { r: r, g: g, b: b };
                allGoveeStates[ip].on = true;
            }
            const dev = allDevices.find(d => d.device_id === selectedDeviceId);
            if (dev) renderInspector(dev);
        } catch(e) {
            console.error('Govee Color Error:', e);
        }
    }

    async function setGoveeTemp(ip, kelvin) {
        try {
            await fetch('/api/govee/lights/' + encodeURIComponent(ip) + '/temperature', {
                method: 'POST',
                headers: { 'Content-Type': 'application/json' },
                body: JSON.stringify({ kelvin: kelvin })
            });
            if (allGoveeStates[ip]) {
                allGoveeStates[ip].color_temp_kelvin = kelvin;
                allGoveeStates[ip].on = true;
            }
            const dev = allDevices.find(d => d.device_id === selectedDeviceId);
            if (dev) renderInspector(dev);
        } catch(e) {
            console.error('Govee Temp Error:', e);
        }
    }

    function handleGoveeCustomColor(ip, hex) {
        if (!hex || hex.length !== 7) return;
        const r = parseInt(hex.slice(1, 3), 16);
        const g = parseInt(hex.slice(3, 5), 16);
        const b = parseInt(hex.slice(5, 7), 16);
        setGoveeColor(ip, r, g, b);
    }

    // Room Manager Modal Functions
    function openRoomModal() {
        renderModalRooms();
        const m = document.getElementById('room-manager-modal');
        if (m) m.style.display = 'block';
    }

    function closeRoomModal() {
        const m = document.getElementById('room-manager-modal');
        if (m) m.style.display = 'none';
    }

    function renderModalRooms() {
        const tbody = document.getElementById('modal-rooms-tbody');
        const countEl = document.getElementById('modal-room-count');
        if (!tbody) return;

        countEl.innerText = allRooms.length;
        if (allRooms.length === 0) {
            tbody.innerHTML = '<tr><td colspan="6" style="text-align:center; padding:20px; color:var(--muted);">Noch keine Räume definiert. Klicke oben auf "Aus Philips Hue importieren" oder lege einen Raum an.</td></tr>';
            return;
        }

        tbody.innerHTML = allRooms.map(r => {
            const devCount = allDevices.filter(d => (d.room || '').toLowerCase() === r.name.toLowerCase()).length;
            const matterTag = r.matter_tag || 'CommonSpace';
            const hueBadge = r.hue_group_id 
                ? `<span class="badge" style="background:#fef3c7; color:#92400e; font-size:10px;" title="Hue Gruppe #${r.hue_group_id}">💡 #${r.hue_group_id}</span>`
                : '<span style="color:var(--muted); font-size:10px;">—</span>';

            return `
"#;

pub const SCRIPT_9: &'static str = r#"                <tr style="border-bottom:1px solid var(--border);">
                    <td style="padding:8px 10px; font-weight:600;">
                        <span style="font-size:16px; margin-right:6px;">${r.icon || '📍'}</span>
                        <span>${escapeHtml(r.name)}</span>
                    </td>
                    <td style="padding:8px 10px; color:var(--muted);">${escapeHtml(r.floor || 'Ohne Etage')}</td>
                    <td style="padding:8px 10px;">
                        <span class="badge" style="background:#e0e7ff; color:#3730a3; font-size:10px; padding:2px 6px;" title="Matter Location Tag: ${matterTag}">✨ ${escapeHtml(matterTag)}</span>
                    </td>
                    <td style="padding:8px 10px;">${hueBadge}</td>
                    <td style="padding:8px 10px; text-align:center;">
                        <span class="badge" style="background:var(--badge-bg); color:var(--text); font-size:11px; font-weight:600;">${devCount}</span>
                    </td>
                    <td style="padding:8px 10px; text-align:right; white-space:nowrap;">
                        <button type="button" class="btn-sm" style="font-size:11px; padding:3px 8px; margin-right:4px; cursor:pointer;" onclick="editRoom('${r.id}')">✏️ Edit</button>
                        <button type="button" class="btn-sm" style="color:var(--status-red); border:1px solid var(--border); font-size:11px; padding:3px 6px; cursor:pointer;" onclick="deleteRoom('${r.id}', '${escapeAttr(r.name)}')">🗑️</button>
                    </td>
                </tr>
            `;
        }).join('');
    }

    function editRoom(roomId) {
        const r = allRooms.find(item => item.id === roomId);
        if (!r) return;

        document.getElementById('rm-id').value = r.id;
        document.getElementById('rm-name').value = r.name;
        document.getElementById('rm-floor').value = r.floor || 'Erdgeschoss';
        document.getElementById('rm-archetype').value = r.archetype || 'other';
        document.getElementById('rm-icon').value = r.icon || '📍';
        document.getElementById('rm-matter').value = r.matter_tag || 'CommonSpace';
        document.getElementById('rm-hue-group-id').value = r.hue_group_id || '';
        document.getElementById('rm-hue-class').value = r.hue_class || '';

        const hueSyncWrap = document.getElementById('rm-hue-sync-wrapper');
        if (hueSyncWrap) {
            hueSyncWrap.style.display = r.hue_group_id ? 'block' : 'none';
        }

        document.getElementById('room-editor-title').innerText = '✏️ Raum bearbeiten: ' + r.name;
        document.getElementById('btn-save-room').innerText = '💾 Änderungen speichern';
        document.getElementById('btn-cancel-room-edit').style.display = 'inline-block';
        document.getElementById('rm-name').focus();
    }

    function cancelEditRoom() {
        document.getElementById('rm-id').value = '';
        document.getElementById('rm-name').value = '';
        document.getElementById('rm-floor').value = 'Erdgeschoss';
        document.getElementById('rm-archetype').value = 'living_room';
        document.getElementById('rm-icon').value = '🛋️';
        document.getElementById('rm-matter').value = 'LivingRoom';
        document.getElementById('rm-hue-group-id').value = '';
        document.getElementById('rm-hue-class').value = '';

        const hueSyncWrap = document.getElementById('rm-hue-sync-wrapper');
        if (hueSyncWrap) hueSyncWrap.style.display = 'none';

        document.getElementById('room-editor-title').innerText = '➕ Neuen Raum anlegen';
        document.getElementById('btn-save-room').innerText = '💾 Raum speichern';
        document.getElementById('btn-cancel-room-edit').style.display = 'none';
    }

    function setRoomIcon(emoji) {
        const iconInput = document.getElementById('rm-icon');
        if (iconInput) iconInput.value = emoji;
    }

    async function importHueRooms() {
        const btn = document.getElementById('btn-import-hue');
        const statusEl = document.getElementById('room-op-status');
        if (btn) btn.disabled = true;
        if (statusEl) {
            statusEl.innerText = 'Importiere Räume & Geräte aus Hue...';
            statusEl.style.color = 'var(--muted)';
        }

        try {
            const res = await fetch('/api/rooms/import-hue', { method: 'POST' });
            const json = await res.json();
            if (res.ok && json.status === 'ok') {
                if (statusEl) {
                    statusEl.innerText = json.message || 'Import erfolgreich!';
                    statusEl.style.color = 'var(--status-green)';
                }
                setTimeout(() => {
                    window.location.reload();
                }, 1000);
            } else {
                if (statusEl) {
                    statusEl.innerText = 'Fehler: ' + (json.message || 'Import fehlgeschlagen');
                    statusEl.style.color = 'var(--status-red)';
                }
                if (btn) btn.disabled = false;
            }
        } catch (e) {
            if (statusEl) {
                statusEl.innerText = 'Netzwerkfehler: ' + e;
                statusEl.style.color = 'var(--status-red)';
            }
            if (btn) btn.disabled = false;
        }
    }

    async function submitNewRoom(event) {
        event.preventDefault();
        const id = document.getElementById('rm-id').value.trim();
        const name = document.getElementById('rm-name').value.trim();
        if (!name) return;
        const floor = document.getElementById('rm-floor').value;
        const archetype = document.getElementById('rm-archetype').value;
        const icon = document.getElementById('rm-icon').value.trim();
        const matter = document.getElementById('rm-matter').value.trim();
        const hueGroupId = document.getElementById('rm-hue-group-id').value.trim();
        const hueClass = document.getElementById('rm-hue-class').value.trim();
        const statusEl = document.getElementById('room-op-status');

        try {
            const res = await fetch('/api/rooms', {
                method: 'POST',
                headers: { 'Content-Type': 'application/json' },
                body: JSON.stringify({
                    id: id,
                    name: name,
                    floor: floor,
                    archetype: archetype,
                    icon: icon,
                    matter_tag: matter,
                    hue_group_id: hueGroupId || null,
                    hue_class: hueClass || null,
                })
            });
            if (res.ok) {
                const data = await res.json();
                if (statusEl) {
                    statusEl.innerText = 'Raum gespeichert!';
                    statusEl.style.color = 'var(--status-green)';
                }
                setTimeout(() => {
                    window.location.reload();
                }, 500);
            } else {
                alert('Fehler beim Speichern des Raums');
            }
        } catch (e) {
            alert('Netzwerkfehler: ' + e);
        }
    }

    async function deleteRoom(id, name) {
        if (!confirm(`Möchtest du den Raum "${name}" wirklich löschen?`)) {
            return;
        }
        try {
            const res = await fetch('/api/rooms/' + encodeURIComponent(id), { method: 'DELETE' });
            if (res.ok) {
                window.location.reload();
            } else {
                alert('Fehler beim Löschen des Raums');
            }
        } catch (e) {
            alert('Netzwerkfehler: ' + e);
        }
    }

    const archetypeMap = {
        'living_room': { icon: '🛋️', tag: 'LivingRoom', floor: 'Erdgeschoss' },
        'kitchen': { icon: '🍳', tag: 'Kitchen', floor: 'Erdgeschoss' },
        'dining_room': { icon: '🍽️', tag: 'DiningRoom', floor: 'Erdgeschoss' },
        'bedroom': { icon: '🛏️', tag: 'Bedroom', floor: 'Obergeschoss' },
        'kids_room': { icon: '🧸', tag: 'KidsRoom', floor: 'Obergeschoss' },
        'bathroom': { icon: '🛁', tag: 'Bathroom', floor: 'Obergeschoss' },
        'toilet': { icon: '🚽', tag: 'Bathroom', floor: 'Erdgeschoss' },
        'office': { icon: '💼', tag: 'Office', floor: 'Obergeschoss' },
        'hallway': { icon: '🚪', tag: 'Hallway', floor: 'Erdgeschoss' },
        'stairs': { icon: '🪜', tag: 'Hallway', floor: 'Erdgeschoss' },
        'basement': { icon: '📦', tag: 'Basement', floor: 'Keller' },
        'outdoor': { icon: '🌳', tag: 'Outdoor', floor: 'Außenbereich' },
        'garage': { icon: '🚗', tag: 'Garage', floor: 'Außenbereich' },
        'spa': { icon: '🧖', tag: 'Bathroom', floor: 'Keller' },
        'other': { icon: '📍', tag: 'CommonSpace', floor: 'Erdgeschoss' }
    };

    function onArchetypeSelect(arch) {
        const info = archetypeMap[arch];
        if (info) {
            const iconEl = document.getElementById('rm-icon');
            const matterEl = document.getElementById('rm-matter');
            const floorEl = document.getElementById('rm-floor');
            if (iconEl) iconEl.value = info.icon;
            if (matterEl) matterEl.value = info.tag;
            if (floorEl) floorEl.value = info.floor;
        }
    }

    function onRoomNameInput(val) {
        val = (val || '').toLowerCase();
        let detected = null;
        if (val.includes('wohn')) detected = 'living_room';
        else if (val.includes('küh') || val.includes('kueh')) detected = 'kitchen';
        else if (val.includes('ess')) detected = 'dining_room';
        else if (val.includes('schlaf')) detected = 'bedroom';
        else if (val.includes('kinder') || val.includes('tom') || val.includes('sophie')) detected = 'kids_room';
        else if (val.includes('bad') || val.includes('bath')) detected = 'bathroom';
        else if (val.includes('wc') || val.includes('toilet')) detected = 'toilet';
        else if (val.includes('büro') || val.includes('buero') || val.includes('arbeit')) detected = 'office';
        else if (val.includes('flur') || val.includes('windfang') || val.includes('diele')) detected = 'hallway';
        else if (val.includes('keller') || val.includes('ug')) detected = 'basement';
        else if (val.includes('garten') || val.includes('terrasse') || val.includes('balkon') || val.includes('vordach')) detected = 'outdoor';
        else if (val.includes('garage') || val.includes('carport')) detected = 'garage';
        else if (val.includes('sauna') || val.includes('wellness')) detected = 'spa';

        if (detected) {
            const archEl = document.getElementById('rm-archetype');
            if (archEl) {
                archEl.value = detected;
                onArchetypeSelect(detected);
            }
        }
    }

    // Initial load: select device from hash or first available device
    window.addEventListener('DOMContentLoaded', () => {
        const hash = (window.location.hash || '').replace('#', '');
        if (hash && allDevices.some(d => d.device_id === hash)) {
            selectDevice(hash);
        } else if (allDevices.length > 0) {
            selectDevice(allDevices[0].device_id);
        }
    });
    </script>
    "#;

/// The script of the page, with its data.
pub open spec fn script_html(devices: Seq<char>, products: Seq<char>, rooms: Seq<char>, govee: Seq<char>) -> Seq<char> {
    SCRIPT_0@ + devices + SCRIPT_1@ + products + SCRIPT_2@ + rooms + SCRIPT_3@ + govee + SCRIPT_4@ + SCRIPT_5@ + SCRIPT_6@ + SCRIPT_7@ + SCRIPT_8@ + SCRIPT_9@
}

/// The script of the page, with its data.
pub fn script(devices: &str, products: &str, rooms: &str, govee: &str) -> (r: String)
    ensures
        r@ == script_html(devices@, products@, rooms@, govee@),
{
    let mut out = SCRIPT_0.to_owned();
    out.append(devices);
    out.append(SCRIPT_1);
    out.append(products);
    out.append(SCRIPT_2);
    out.append(rooms);
    out.append(SCRIPT_3);
    out.append(govee);
    out.append(SCRIPT_4);
    out.append(SCRIPT_5);
    out.append(SCRIPT_6);
    out.append(SCRIPT_7);
    out.append(SCRIPT_8);
    out.append(SCRIPT_9);
    out
}

pub const CONTENT_0: &'static str = r#"
        <div class="toolbar">
            <h2>Detected Devices ("#;

pub const CONTENT_1: &'static str = r#")</h2>
            <div style="display:flex;gap:10px;align-items:center;">
                <input type="text" id="device-search" placeholder="Search devices (name, IP, MAC)..." class="search-input" oninput="filterDevices()" />
                <form action="/scan" method="POST" id="scan-form" style="margin:0;">
                    <button type="submit" id="scan-btn" class="btn btn-primary">
                        <span>🔄</span> <span id="scan-label">Scan Network Now</span>
                    </button>
                </form>
            </div>
        </div>
        <div class="status-pills" style="display:flex; flex-wrap:wrap; gap:8px; align-items:center; margin-bottom:12px;">
            <span style="font-size:12px; font-weight:600; color:var(--muted); margin-right:4px;">Status:</span>
            <button type="button" class="status-pill active" id="filter-status-all" onclick="setStatusFilter('all', this)">All ("#;

pub const CONTENT_2: &'static str = r#")</button>
            <button type="button" class="status-pill" id="filter-status-active" onclick="setStatusFilter('active', this)">🟢 Active ("#;

pub const CONTENT_3: &'static str = r#")</button>
            <button type="button" class="status-pill" id="filter-status-inactive" onclick="setStatusFilter('inactive', this)" title="Geräte, die HomeNode Server zuvor aktiv erkannt hat, aktuell offline">⚪ Former ("#;

pub const CONTENT_4: &'static str = r#")</button>
            <button type="button" class="status-pill" id="filter-status-archive" onclick="setStatusFilter('archive', this)" title="Reine inaktive Alt-Leases / Geräte im FRITZ!Box Router-Archiv">📦 Router Archive ("#;

pub const CONTENT_5: &'static str = r#")</button>
            <button type="button" class="status-pill" id="filter-status-ignored" onclick="setStatusFilter('ignored', this)" title="Ignorierte Nachbargeräte & blockierte BLE-Sender" style="color:var(--status-red);">🚫 Ignored ("#;

pub const CONTENT_6: &'static str = r#")</button>

            <span style="font-size:12px; font-weight:600; color:var(--muted); margin-left:12px; margin-right:4px;">Interfaces:</span>
            <select id="scanner-filter" onchange="setScannerFilter(this.value)" style="background:var(--bg-card); color:var(--text); border:1px solid var(--border); border-radius:6px; font-size:12px; padding:3px 8px; cursor:pointer;">
                <option value="all">Alle Interfaces</option>
                <option value="arp">📡 ARP</option>
                <option value="ping">⚡ Ping / ICMP</option>
                <option value="mdns">🔍 mDNS / Bonjour</option>
                <option value="ssdp">🌐 SSDP / UPnP</option>
                <option value="fritzbox-tr064">🔀 FRITZ!Box TR-064</option>
                <option value="matter">✨ Matter</option>
                <option value="bthome">📶 BTHome (BLE Sensors & Buttons)</option>
                <option value="shelly-gateway">📡 Shelly BLE Gateways</option>
                <option value="philips-hue">💡 Philips Hue</option>
                <option value="mobile-scout">📱 mHomeNode Mobile Scout</option>
            </select>

            <span style="font-size:12px; font-weight:600; color:var(--muted); margin-left:12px; margin-right:4px;">Raum:</span>
            <select id="room-filter" onchange="setRoomFilter(this.value)" style="background:var(--bg-card); color:var(--text); border:1px solid var(--border); border-radius:6px; font-size:12px; padding:3px 8px; cursor:pointer;">
                "#;

pub const CONTENT_7: &'static str = r#"
            </select>

            <span style="font-size:12px; font-weight:600; color:var(--muted); margin-left:8px; margin-right:4px;">Etage:</span>
            <select id="floor-filter" onchange="setFloorFilter(this.value)" style="background:var(--bg-card); color:var(--text); border:1px solid var(--border); border-radius:6px; font-size:12px; padding:3px 8px; cursor:pointer;">
                <option value="all">Alle Etagen</option>
                <option value="Dachgeschoss">Dachgeschoss</option>
                <option value="Obergeschoss">Obergeschoss</option>
                <option value="Erdgeschoss">Erdgeschoss</option>
                <option value="Keller">Keller</option>
                <option value="Außenbereich">Außenbereich</option>
            </select>

            <button type="button" class="btn-sm" style="margin-left:8px; font-size:11px; cursor:pointer; background:var(--surface); border:1px solid var(--border);" onclick="openRoomModal()">🚪 Räume verwalten</button>
        </div>
        <div class="pills">"#;

pub const CONTENT_8: &'static str = r#"</div>

        <div style="display:flex; justify-content:space-between; align-items:center; margin-bottom:14px; padding:8px 14px; background:var(--surface); border:1px solid var(--border); border-radius:8px; font-size:12px;">
            <div style="display:flex; align-items:center; gap:8px;">
                <span>💡</span>
                <span style="color:var(--muted);">Echtzeit BLE-Events, Raumanwesenheit und Stromfluss findest du auf dem <a href="/" style="color:var(--primary); font-weight:600; text-decoration:none;">🏠 Dashboard</a>.</span>
            </div>
            <a href="/" class="btn btn-sm" style="font-size:11px; text-decoration:none; padding:3px 10px;">Zum Dashboard ↗</a>
        </div>
        
        <div class="workspace-grid">
            <!-- Left Inspector Panel -->
            <div class="inspector-panel" id="inspector-panel">
                <div id="inspector-content">
                    <div class="inspector-empty">
                        <span style="font-size:32px;">👈</span>
                        <h4 style="margin-top:10px;">Select a Device</h4>
                        <p style="font-size:12px; margin-top:6px;">Click on any device in the list to inspect its network interfaces, edit documentation, scan open ports, or link dual-homed connections.</p>
                    </div>
                </div>
            </div>

            <!-- Right Device List -->
            <div id="device-list-container">
                "#;

pub const CONTENT_9: &'static str = r#"
            </div>
        </div>

        <!-- Room Manager Modal -->
        <div id="room-manager-modal" style="display:none; position:fixed; top:0; left:0; width:100%; height:100%; background:rgba(0,0,0,0.55); z-index:9999; overflow-y:auto; backdrop-filter:blur(2px);">
            <div class="card" style="max-width:760px; margin:40px auto; padding:24px; box-shadow:0 12px 35px rgba(0,0,0,0.3);">
                <div style="display:flex; justify-content:space-between; align-items:center; margin-bottom:16px; border-bottom:1px solid var(--border); padding-bottom:12px;">
                    <div>
                        <h3 style="margin:0; display:flex; align-items:center; gap:8px;">
                            <span>🚪</span> <span>Raum- & Standortverwaltung</span>
                        </h3>
                        <div style="font-size:11px; color:var(--muted); margin-top:3px;">
                            Strukturierte Räume & Etagen • Synchronisierbar mit Apple Home (HMRoom/HMFloor) & Matter 1.3+
                        </div>
                    </div>
                    <button type="button" class="btn-sm" onclick="closeRoomModal()" style="font-size:14px; font-weight:bold; cursor:pointer;">✕</button>
                </div>

                <div style="display:flex; justify-content:space-between; align-items:center; margin-bottom:16px; background:var(--surface); padding:10px 14px; border-radius:8px; border:1px solid var(--border);">
                    <div>
                        <div style="font-weight:600; font-size:12px;">💡 Philips Hue Bridge Räume</div>
                        <div style="font-size:11px; color:var(--muted);">Importiert alle konfigurierten Räume & ordnet Leuchten/Sensoren automatisch zu.</div>
                    </div>
                    <button type="button" id="btn-import-hue" class="btn btn-sm btn-primary" onclick="importHueRooms()">
                        <span>🔄</span> <span>Aus Philips Hue importieren</span>
                    </button>
                </div>

                <!-- Room Editor Form (Create or Edit) -->
                <div style="margin-bottom:16px; background:var(--bg); border:1px solid var(--border); border-radius:8px; padding:14px;">
                    <div style="display:flex; justify-content:space-between; align-items:center; margin-bottom:10px;">
                        <span id="room-editor-title" style="font-size:13px; font-weight:700; color:var(--text);">➕ Neuen Raum anlegen</span>
                        <button type="button" id="btn-cancel-room-edit" class="btn-sm" style="display:none; font-size:11px; cursor:pointer;" onclick="cancelEditRoom()">Abbrechen</button>
                    </div>
                    <form id="add-room-form" onsubmit="submitNewRoom(event)">
                        <input type="hidden" id="rm-id" value="" />
                        <input type="hidden" id="rm-hue-group-id" value="" />
                        <input type="hidden" id="rm-hue-class" value="" />

                        <div style="display:grid; grid-template-columns:1fr 1fr; gap:10px; margin-bottom:10px;">
                            <div>
                                <label style="font-size:11px; font-weight:600; color:var(--muted);">Raumname *</label>
                                <input type="text" id="rm-name" class="form-control" required placeholder="z.B. Wohnzimmer, Büro..." oninput="onRoomNameInput(this.value)" />
                            </div>
                            <div>
                                <label style="font-size:11px; font-weight:600; color:var(--muted);">Etage (Floor)</label>
                                <select id="rm-floor" class="form-control">
                                    <option value="Dachgeschoss">Dachgeschoss</option>
                                    <option value="Obergeschoss">Obergeschoss</option>
                                    <option value="Erdgeschoss" selected>Erdgeschoss</option>
                                    <option value="Keller">Keller</option>
                                    <option value="Außenbereich">Außenbereich</option>
                                    <option value="Sonstige">Sonstige</option>
                                </select>
                            </div>
                        </div>
                        <div style="display:grid; grid-template-columns:1fr 1fr 1fr; gap:10px; margin-bottom:12px;">
                            <div>
                                <label style="font-size:11px; font-weight:600; color:var(--muted);">Archetyp / Raumtyp</label>
                                <select id="rm-archetype" class="form-control" onchange="onArchetypeSelect(this.value)">
                                    <option value="living_room">Wohnzimmer (Living Room)</option>
                                    <option value="kitchen">Küche (Kitchen)</option>
                                    <option value="dining_room">Esszimmer (Dining)</option>
                                    <option value="bedroom">Schlafzimmer (Bedroom)</option>
                                    <option value="kids_room">Kinderzimmer (Kids)</option>
                                    <option value="bathroom">Badezimmer (Bathroom)</option>
                                    <option value="toilet">Toilette / Gäste-WC</option>
                                    <option value="office">Büro / Arbeitszimmer (Office)</option>
                                    <option value="hallway">Flur / Diele (Hallway)</option>
                                    <option value="stairs">Treppenhaus (Stairs)</option>
                                    <option value="basement">Keller / Lager (Basement)</option>
                                    <option value="outdoor">Außen / Garten / Terrasse</option>
                                    <option value="garage">Garage / Carport</option>
                                    <option value="spa">Sauna / Spa</option>
                                    <option value="other">Sonstiger Raum</option>
                                </select>
                            </div>
                            <div>
                                <label style="font-size:11px; font-weight:600; color:var(--muted);">Icon (Emoji)</label>
                                <div style="display:flex; gap:6px; align-items:center;">
                                    <input type="text" id="rm-icon" class="form-control" style="width:50px; text-align:center; font-size:16px;" value="🛋️" />
                                    <div style="display:flex; gap:4px; flex-wrap:wrap;">
                                        <span style="cursor:pointer; font-size:14px;" onclick="setRoomIcon('🛋️')" title="Wohnzimmer">🛋️</span>
                                        <span style="cursor:pointer; font-size:14px;" onclick="setRoomIcon('🍳')" title="Küche">🍳</span>
                                        <span style="cursor:pointer; font-size:14px;" onclick="setRoomIcon('🛏️')" title="Schlafzimmer">🛏️</span>
                                        <span style="cursor:pointer; font-size:14px;" onclick="setRoomIcon('🛁')" title="Bad">🛁</span>
                                        <span style="cursor:pointer; font-size:14px;" onclick="setRoomIcon('💼')" title="Büro">💼</span>
                                        <span style="cursor:pointer; font-size:14px;" onclick="setRoomIcon('🚪')" title="Flur">🚪</span>
                                        <span style="cursor:pointer; font-size:14px;" onclick="setRoomIcon('📦')" title="Keller">📦</span>
                                        <span style="cursor:pointer; font-size:14px;" onclick="setRoomIcon('🌳')" title="Garten">🌳</span>
                                    </div>
                                </div>
                            </div>
                            <div>
                                <label style="font-size:11px; font-weight:600; color:var(--muted);">Matter Area Tag</label>
                                <input type="text" id="rm-matter" class="form-control" value="LivingRoom" />
                            </div>
                        </div>

                        <div id="rm-hue-sync-wrapper" style="display:none; margin-bottom:12px; background:rgba(245,158,11,0.08); border:1px solid rgba(245,158,11,0.25); border-radius:6px; padding:8px 10px; font-size:11px;">
                            <label style="display:flex; align-items:center; gap:8px; cursor:pointer;">
                                <input type="checkbox" id="rm-sync-hue" checked />
                                <span>💡 Änderung (Name & Typ) auch direkt an die Philips Hue Bridge übertragen</span>
                            </label>
                        </div>

                        <div style="display:flex; justify-content:flex-end; gap:8px;">
                            <button type="submit" class="btn btn-sm btn-primary" id="btn-save-room">💾 Raum speichern</button>
                        </div>
                    </form>
                </div>

                <!-- Existing Rooms Table -->
                <div style="font-weight:600; font-size:12px; margin-bottom:8px; display:flex; justify-content:space-between; align-items:center;">
                    <span>Vorhandene Räume (<span id="modal-room-count">0</span>)</span>
                    <span id="room-op-status" style="font-size:11px; font-weight:normal;"></span>
                </div>
                <div style="max-height:360px; overflow-y:auto; border:1px solid var(--border); border-radius:6px;">
                    <table style="width:100%; border-collapse:collapse; font-size:12px;">
                        <thead>
                            <tr style="background:var(--surface); border-bottom:1px solid var(--border); text-align:left;">
                                <th style="padding:8px 10px;">Raum</th>
                                <th style="padding:8px 10px;">Etage</th>
                                <th style="padding:8px 10px;">Matter Tag</th>
                                <th style="padding:8px 10px;">Hue Bridge</th>
                                <th style="padding:8px 10px; text-align:center;">Geräte</th>
                                <th style="padding:8px 10px; text-align:right;">Aktionen</th>
                            </tr>
                        </thead>
                        <tbody id="modal-rooms-tbody">
                            <!-- Injected via JavaScript -->
                        </tbody>
                    </table>
                </div>

                <div style="display:flex; justify-content:flex-end; margin-top:16px;">
                    <button type="button" class="btn" style="background:var(--badge-bg); color:var(--text);" onclick="closeRoomModal()">Schließen</button>
                </div>
            </div>
        </div>

        "#;

/// The content of the page.
pub open spec fn content_html(
    count: Seq<char>,
    total: Seq<char>,
    active: Seq<char>,
    former: Seq<char>,
    archived: Seq<char>,
    ignored: Seq<char>,
    room_options: Seq<char>,
    pills: Seq<char>,
    groups: Seq<char>,
    script: Seq<char>,
) -> Seq<char> {
    CONTENT_0@ + count + CONTENT_1@ + total + CONTENT_2@ + active + CONTENT_3@ + former + CONTENT_4@ + archived + CONTENT_5@ + ignored + CONTENT_6@ + room_options + CONTENT_7@ + pills + CONTENT_8@ + groups + CONTENT_9@ + script
}

/// The content of the page.
pub fn content(
    count: &str,
    total: &str,
    active: &str,
    former: &str,
    archived: &str,
    ignored: &str,
    room_options: &str,
    pills: &str,
    groups: &str,
    script: &str,
) -> (r: String)
    ensures
        r@ == content_html(count@, total@, active@, former@, archived@, ignored@, room_options@, pills@, groups@, script@),
{
    let mut out = CONTENT_0.to_owned();
    out.append(count);
    out.append(CONTENT_1);
    out.append(total);
    out.append(CONTENT_2);
    out.append(active);
    out.append(CONTENT_3);
    out.append(former);
    out.append(CONTENT_4);
    out.append(archived);
    out.append(CONTENT_5);
    out.append(ignored);
    out.append(CONTENT_6);
    out.append(room_options);
    out.append(CONTENT_7);
    out.append(pills);
    out.append(CONTENT_8);
    out.append(groups);
    out.append(CONTENT_9);
    out.append(script);
    out
}

}

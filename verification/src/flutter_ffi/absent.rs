//! What the frontend can ask for and this engine does not have.
//!
//! A call that would change something changes nothing. A call that wants a value gets
//! the neutral one of its type: nothing, no, none or zero, never a made-up success.
use vstd::prelude::*;
use crate::flutter_ffi::nothing;
use crate::flutter_ffi::{SessionID, SyncReturn};

verus! {

// Sessions.

#[allow(unused_variables)]
pub fn session_get_remember(session_id: SessionID) -> (r: Option<bool>)
    ensures
        r is None,
{
    None
}

#[allow(unused_variables)]
pub fn session_get_enable_trusted_devices(session_id: SessionID) -> (r: SyncReturn<bool>)
    ensures
        !r.0,
{
    SyncReturn(false)
}

#[allow(unused_variables)]
pub fn session_take_screenshot(session_id: SessionID, display: usize) {
}

#[allow(unused_variables)]
pub fn session_handle_screenshot(
    #[allow(unused_variables)] session_id: SessionID,
    action: String,
) -> (r: String)
    ensures
        r@ == Seq::<char>::empty(),
{
    nothing()
}

#[allow(unused_variables)]
pub fn session_is_multi_ui_session(session_id: SessionID) -> (r: SyncReturn<bool>)
    ensures
        !r.0,
{
    SyncReturn(false)
}

#[allow(unused_variables)]
pub fn session_record_screen(session_id: SessionID, start: bool) {
}

#[allow(unused_variables)]
pub fn session_get_is_recording(session_id: SessionID) -> (r: SyncReturn<bool>)
    ensures
        !r.0,
{
    SyncReturn(false)
}

#[allow(unused_variables)]
pub fn session_toggle_privacy_mode(session_id: SessionID, impl_key: String, on: bool) {
}

#[allow(unused_variables)]
pub fn session_get_flutter_option(session_id: SessionID, k: String) -> (r: Option<String>)
    ensures
        r is None,
{
    None
}

#[allow(unused_variables)]
pub fn session_set_flutter_option(session_id: SessionID, k: String, v: String) {
}

#[allow(unused_variables)]
pub fn session_get_view_style(session_id: SessionID) -> (r: Option<String>)
    ensures
        r is None,
{
    None
}

#[allow(unused_variables)]
pub fn session_set_view_style(session_id: SessionID, value: String) {
}

#[allow(unused_variables)]
pub fn session_get_scroll_style(session_id: SessionID) -> (r: Option<String>)
    ensures
        r is None,
{
    None
}

#[allow(unused_variables)]
pub fn session_set_scroll_style(session_id: SessionID, value: String) {
}

#[allow(unused_variables)]
pub fn session_get_edge_scroll_edge_thickness(session_id: SessionID) -> (r: Option<i32>)
    ensures
        r is None,
{
    None
}

#[allow(unused_variables)]
pub fn session_set_edge_scroll_edge_thickness(session_id: SessionID, value: i32) {
}

#[allow(unused_variables)]
pub fn session_get_image_quality(session_id: SessionID) -> (r: Option<String>)
    ensures
        r is None,
{
    None
}

#[allow(unused_variables)]
pub fn session_set_image_quality(session_id: SessionID, value: String) {
}

#[allow(unused_variables)]
pub fn session_get_keyboard_mode(session_id: SessionID) -> (r: Option<String>)
    ensures
        r is None,
{
    None
}

#[allow(unused_variables)]
pub fn session_set_keyboard_mode(session_id: SessionID, value: String) {
}

#[allow(unused_variables)]
pub fn session_get_reverse_mouse_wheel_sync(
    session_id: SessionID,
) -> (r: SyncReturn<Option<String>>)
    ensures
        r.0 is None,
{
    SyncReturn(None)
}

#[allow(unused_variables)]
pub fn session_set_reverse_mouse_wheel(session_id: SessionID, value: String) {
}

#[allow(unused_variables)]
pub fn session_get_displays_as_individual_windows(
    session_id: SessionID,
) -> (r: SyncReturn<Option<String>>)
    ensures
        r.0 is None,
{
    SyncReturn(None)
}

#[allow(unused_variables)]
pub fn session_set_displays_as_individual_windows(session_id: SessionID, value: String) {
}

#[allow(unused_variables)]
pub fn session_get_use_all_my_displays_for_the_remote_session(
    session_id: SessionID,
) -> (r: SyncReturn<Option<String>>)
    ensures
        r.0 is None,
{
    SyncReturn(None)
}

#[allow(unused_variables)]
pub fn session_set_use_all_my_displays_for_the_remote_session(
    session_id: SessionID,
    value: String,
) {
}

#[allow(unused_variables)]
pub fn session_get_custom_image_quality(session_id: SessionID) -> (r: Option<Vec<i32>>)
    ensures
        r is None,
{
    None
}

#[allow(unused_variables)]
pub fn session_is_keyboard_mode_supported(
    session_id: SessionID,
    mode: String,
) -> (r: SyncReturn<bool>)
    ensures
        !r.0,
{
    SyncReturn(false)
}

#[allow(unused_variables)]
pub fn session_set_custom_image_quality(session_id: SessionID, value: i32) {
}

#[allow(unused_variables)]
pub fn session_set_custom_fps(session_id: SessionID, fps: i32) {
}

#[allow(unused_variables)]
pub fn session_get_trackpad_speed(session_id: SessionID) -> (r: Option<i32>)
    ensures
        r is None,
{
    None
}

#[allow(unused_variables)]
pub fn session_set_trackpad_speed(session_id: SessionID, value: i32) {
}

#[allow(unused_variables)]
pub fn session_switch_display(is_desktop: bool, session_id: SessionID, value: Vec<i32>) {
}

#[allow(unused_variables)]
pub fn session_send_chat(session_id: SessionID, text: String) {
}

#[allow(unused_variables)]
pub fn session_open_terminal(session_id: SessionID, terminal_id: i32, rows: u32, cols: u32) {
}

#[allow(unused_variables)]
pub fn session_send_terminal_input(session_id: SessionID, terminal_id: i32, data: String) {
}

#[allow(unused_variables)]
pub fn session_resize_terminal(session_id: SessionID, terminal_id: i32, rows: u32, cols: u32) {
}

#[allow(unused_variables)]
pub fn session_close_terminal(session_id: SessionID, terminal_id: i32) {
}

#[allow(unused_variables)]
pub fn session_read_remote_dir(session_id: SessionID, path: String, include_hidden: bool) {
}

#[allow(unused_variables)]
pub fn session_send_files(
    session_id: SessionID,
    act_id: i32,
    path: String,
    to: String,
    file_num: i32,
    include_hidden: bool,
    is_remote: bool,
    _is_dir: bool,
) {
}

#[allow(unused_variables)]
pub fn session_set_confirm_override_file(
    session_id: SessionID,
    act_id: i32,
    file_num: i32,
    need_override: bool,
    remember: bool,
    is_upload: bool,
) {
}

#[allow(unused_variables)]
pub fn session_remove_file(
    session_id: SessionID,
    act_id: i32,
    path: String,
    file_num: i32,
    is_remote: bool,
) {
}

#[allow(unused_variables)]
pub fn session_read_dir_to_remove_recursive(
    session_id: SessionID,
    act_id: i32,
    path: String,
    is_remote: bool,
    show_hidden: bool,
) {
}

#[allow(unused_variables)]
pub fn session_remove_all_empty_dirs(
    session_id: SessionID,
    act_id: i32,
    path: String,
    is_remote: bool,
) {
}

#[allow(unused_variables)]
pub fn session_cancel_job(session_id: SessionID, act_id: i32) {
}

#[allow(unused_variables)]
pub fn session_create_dir(session_id: SessionID, act_id: i32, path: String, is_remote: bool) {
}

#[allow(unused_variables)]
pub fn session_read_local_dir_sync(
    _session_id: SessionID,
    path: String,
    show_hidden: bool,
) -> (r: String)
    ensures
        r@ == Seq::<char>::empty(),
{
    nothing()
}

#[allow(unused_variables)]
pub fn session_read_local_empty_dirs_recursive_sync(
    _session_id: SessionID,
    path: String,
    include_hidden: bool,
) -> (r: String)
    ensures
        r@ == Seq::<char>::empty(),
{
    nothing()
}

#[allow(unused_variables)]
pub fn session_read_remote_empty_dirs_recursive_sync(
    session_id: SessionID,
    path: String,
    include_hidden: bool,
) {
}

#[allow(unused_variables)]
pub fn session_get_platform(session_id: SessionID, is_remote: bool) -> (r: String)
    ensures
        r@ == Seq::<char>::empty(),
{
    nothing()
}

#[allow(unused_variables)]
pub fn session_load_last_transfer_jobs(session_id: SessionID) {
}

#[allow(unused_variables)]
pub fn session_add_job(
    session_id: SessionID,
    act_id: i32,
    path: String,
    to: String,
    file_num: i32,
    include_hidden: bool,
    is_remote: bool,
) {
}

#[allow(unused_variables)]
pub fn session_resume_job(session_id: SessionID, act_id: i32, is_remote: bool) {
}

#[allow(unused_variables)]
pub fn session_rename_file(
    session_id: SessionID,
    act_id: i32,
    path: String,
    new_name: String,
    is_remote: bool,
) {
}

#[allow(unused_variables)]
pub fn session_elevate_direct(session_id: SessionID) {
}

#[allow(unused_variables)]
pub fn session_elevate_with_logon(session_id: SessionID, username: String, password: String) {
}

#[allow(unused_variables)]
pub fn session_switch_sides(session_id: SessionID) {
}

#[allow(unused_variables)]
pub fn session_change_resolution(session_id: SessionID, display: i32, width: i32, height: i32) {
}

#[allow(unused_variables)]
pub fn session_set_size(session_id: SessionID, display: usize, width: usize, height: usize) {
}

#[allow(unused_variables)]
pub fn session_send_selected_session_id(session_id: SessionID, sid: String) {
}

#[allow(unused_variables)]
pub fn session_add_port_forward(
    session_id: SessionID,
    local_port: i32,
    remote_host: String,
    remote_port: i32,
) {
}

#[allow(unused_variables)]
pub fn session_remove_port_forward(session_id: SessionID, local_port: i32) {
}

#[allow(unused_variables)]
pub fn session_new_rdp(session_id: SessionID) {
}

#[allow(unused_variables)]
pub fn session_request_voice_call(session_id: SessionID) {
}

#[allow(unused_variables)]
pub fn session_close_voice_call(session_id: SessionID) {
}

#[allow(unused_variables)]
pub fn session_get_conn_token(session_id: SessionID) -> (r: SyncReturn<Option<String>>)
    ensures
        r.0 is None,
{
    SyncReturn(None)
}

#[allow(unused_variables)]
pub fn session_restart_remote_device(session_id: SessionID) {
}

#[allow(unused_variables)]
pub fn session_get_audit_server_sync(
    session_id: SessionID,
    typ: String,
) -> (r: SyncReturn<String>)
    ensures
        r.0@ == Seq::<char>::empty(),
{
    SyncReturn(nothing())
}

#[allow(unused_variables)]
pub fn session_send_note(session_id: SessionID, note: String) {
}

#[allow(unused_variables)]
pub fn session_get_last_audit_note(session_id: SessionID) -> (r: SyncReturn<String>)
    ensures
        r.0@ == Seq::<char>::empty(),
{
    SyncReturn(nothing())
}

#[allow(unused_variables)]
pub fn session_set_audit_guid(session_id: SessionID, guid: String) {
}

#[allow(unused_variables)]
pub fn session_get_audit_guid(session_id: SessionID) -> (r: SyncReturn<String>)
    ensures
        r.0@ == Seq::<char>::empty(),
{
    SyncReturn(nothing())
}

#[allow(unused_variables)]
pub fn session_alternative_codecs(session_id: SessionID) -> (r: String)
    ensures
        r@ == Seq::<char>::empty(),
{
    nothing()
}

#[allow(unused_variables)]
pub fn session_change_prefer_codec(session_id: SessionID) {
}

#[allow(unused_variables)]
pub fn session_on_waiting_for_image_dialog_show(session_id: SessionID) {
}

#[allow(unused_variables)]
pub fn session_toggle_virtual_display(session_id: SessionID, index: i32, on: bool) {
}

#[allow(unused_variables)]
pub fn session_printer_response(
    session_id: SessionID,
    id: i32,
    path: String,
    printer_name: String,
) {
}

#[allow(unused_variables)]
pub fn session_get_rgba_size(session_id: SessionID, display: usize) -> (r: SyncReturn<usize>)
    ensures
        r.0 == 0,
{
    SyncReturn(0)
}

#[allow(unused_variables)]
pub fn session_next_rgba(session_id: SessionID, display: usize) -> (r: SyncReturn<()>) {
    SyncReturn(())
}

#[allow(unused_variables)]
pub fn session_register_pixelbuffer_texture(
    session_id: SessionID,
    display: usize,
    ptr: usize,
) -> (r: SyncReturn<()>) {
    SyncReturn(())
}

#[allow(unused_variables)]
pub fn session_register_gpu_texture(
    session_id: SessionID,
    display: usize,
    ptr: usize,
) -> (r: SyncReturn<()>) {
    SyncReturn(())
}

#[allow(unused_variables)]
pub fn session_request_new_display_init_msgs(session_id: SessionID, display: usize) {
}

#[allow(unused_variables)]
pub fn session_get_common_sync(
    session_id: SessionID,
    key: String,
    param: String,
) -> (r: SyncReturn<Option<String>>)
    ensures
        r.0 is None,
{
    SyncReturn(None)
}

#[allow(unused_variables)]
pub fn session_get_common(
    session_id: SessionID,
    key: String,
    #[allow(unused_variables)] param: String,
) -> (r: Option<String>)
    ensures
        r is None,
{
    None
}

// The application.

pub fn main_get_sound_inputs() -> (r: Vec<String>)
    ensures
        r@.len() == 0,
{
    Vec::new()
}

pub fn main_get_login_device_info() -> (r: SyncReturn<String>)
    ensures
        r.0@ == Seq::<char>::empty(),
{
    SyncReturn(nothing())
}

#[allow(unused_variables)]
pub fn main_change_id(new_id: String) {
}

#[allow(unused_variables)]
pub fn main_get_http_status(url: String) -> (r: Option<String>)
    ensures
        r is None,
{
    None
}

#[allow(unused_variables)]
pub fn main_test_if_valid_server(server: String, test_with_proxy: bool) -> (r: String)
    ensures
        r@ == Seq::<char>::empty(),
{
    nothing()
}

#[allow(unused_variables)]
pub fn main_set_socks(proxy: String, username: String, password: String) {
}

pub fn main_get_proxy_status() -> (r: bool)
    ensures
        !r,
{
    false
}

pub fn main_get_socks() -> (r: Vec<String>)
    ensures
        r@.len() == 0,
{
    Vec::new()
}

#[allow(unused_variables)]
pub fn main_get_peer_sync(id: String) -> (r: SyncReturn<String>)
    ensures
        r.0@ == Seq::<char>::empty(),
{
    SyncReturn(nothing())
}

pub fn main_get_lan_peers() -> (r: String)
    ensures
        r@ == Seq::<char>::empty(),
{
    nothing()
}

pub fn main_discover() {
}

#[allow(unused_variables)]
pub fn main_deploy_device(token: String, id: String) -> (r: String)
    ensures
        r@ == Seq::<char>::empty(),
{
    nothing()
}

#[allow(unused_variables)]
pub fn main_resolve_avatar_url(avatar: String) -> (r: SyncReturn<String>)
    ensures
        r.0@ == Seq::<char>::empty(),
{
    SyncReturn(nothing())
}

#[allow(unused_variables)]
pub fn main_http_request(url: String, method: String, body: Option<String>, header: String) {
}

pub fn main_get_use_texture_render() -> (r: SyncReturn<bool>)
    ensures
        !r.0,
{
    SyncReturn(false)
}

#[allow(unused_variables)]
pub fn main_get_env(key: String) -> (r: SyncReturn<String>)
    ensures
        r.0@ == Seq::<char>::empty(),
{
    SyncReturn(nothing())
}

#[allow(unused_variables)]
pub fn main_set_env(key: String, value: Option<String>) -> (r: SyncReturn<()>) {
    SyncReturn(())
}

#[allow(unused_variables)]
pub fn main_handle_wayland_screencast_restore_token(
    _key: String,
    _value: String,
) -> (r: String)
    ensures
        r@ == Seq::<char>::empty(),
{
    nothing()
}

pub fn main_get_input_source() -> (r: SyncReturn<String>)
    ensures
        r.0@ == Seq::<char>::empty(),
{
    SyncReturn(nothing())
}

#[allow(unused_variables)]
pub fn main_set_input_source(session_id: SessionID, value: String) {
}

#[allow(unused_variables)]
pub fn main_set_cursor_position(x: i32, y: i32) -> (r: SyncReturn<bool>)
    ensures
        !r.0,
{
    SyncReturn(false)
}

#[allow(unused_variables)]
pub fn main_clip_cursor(
    left: i32,
    top: i32,
    right: i32,
    bottom: i32,
    enable: bool,
) -> (r: SyncReturn<bool>)
    ensures
        !r.0,
{
    SyncReturn(false)
}

pub fn main_get_new_stored_peers() -> (r: String)
    ensures
        r@ == Seq::<char>::empty(),
{
    nothing()
}

pub fn main_load_recent_peers() {
}

#[allow(unused_variables)]
pub fn main_load_recent_peers_for_ab(filter: String) -> (r: String)
    ensures
        r@ == Seq::<char>::empty(),
{
    nothing()
}

pub fn main_load_fav_peers() {
}

pub fn main_load_lan_peers() {
}

#[allow(unused_variables)]
pub fn main_remove_discovered(id: String) {
}

#[allow(unused_variables)]
pub fn main_change_theme(dark: String) {
}

#[allow(unused_variables)]
pub fn main_change_language(lang: String) {
}

#[allow(unused_variables)]
pub fn main_video_save_directory(root: bool) -> (r: SyncReturn<String>)
    ensures
        r.0@ == Seq::<char>::empty(),
{
    SyncReturn(nothing())
}

#[allow(unused_variables)]
pub fn main_set_user_default_option(key: String, value: String) {
}

#[allow(unused_variables)]
pub fn main_get_user_default_option(key: String) -> (r: SyncReturn<String>)
    ensures
        r.0@ == Seq::<char>::empty(),
{
    SyncReturn(nothing())
}

#[allow(unused_variables)]
pub fn main_handle_relay_id(id: String) -> (r: String)
    ensures
        r@ == Seq::<char>::empty(),
{
    nothing()
}

pub fn main_get_main_display() -> (r: SyncReturn<String>)
    ensures
        r.0@ == Seq::<char>::empty(),
{
    SyncReturn(nothing())
}

pub fn main_get_displays() -> (r: SyncReturn<String>)
    ensures
        r.0@ == Seq::<char>::empty(),
{
    SyncReturn(nothing())
}

pub fn main_get_last_remote_id() -> (r: String)
    ensures
        r@ == Seq::<char>::empty(),
{
    nothing()
}

pub fn main_get_software_update_url() {
}

pub fn main_get_temporary_password() -> (r: String)
    ensures
        r@ == Seq::<char>::empty(),
{
    nothing()
}

#[allow(unused_variables)]
pub fn main_set_permanent_password_with_result(password: String) -> (r: bool)
    ensures
        !r,
{
    false
}

pub fn main_get_fingerprint() -> (r: String)
    ensures
        r@ == Seq::<char>::empty(),
{
    nothing()
}

#[allow(unused_variables)]
pub fn main_init(app_dir: String, custom_client_config: String) {
}

#[allow(unused_variables)]
pub fn main_configure_ohos_host_display(
    width: usize,
    height: usize,
    display_id: u64,
) -> (r: bool)
    ensures
        !r,
{
    false
}

#[allow(unused_variables)]
pub fn main_set_ohos_host_clipboard_enabled(enabled: bool) {
}

#[allow(unused_variables)]
pub fn main_update_ohos_host_clipboard_text(text: String) -> (r: bool)
    ensures
        !r,
{
    false
}

pub fn main_take_ohos_host_clipboard_text() -> (r: Option<String>)
    ensures
        r is None,
{
    None
}

pub fn main_start_ohos_host() -> (r: String)
    ensures
        r@ == Seq::<char>::empty(),
{
    nothing()
}

pub fn main_stop_ohos_host() -> (r: String)
    ensures
        r@ == Seq::<char>::empty(),
{
    nothing()
}

pub fn main_ohos_host_is_started() -> (r: SyncReturn<bool>)
    ensures
        !r.0,
{
    SyncReturn(false)
}

#[allow(unused_variables)]
pub fn main_device_id(id: String) {
}

#[allow(unused_variables)]
pub fn main_device_name(name: String) {
}

pub fn main_has_hwcodec() -> (r: SyncReturn<bool>)
    ensures
        !r.0,
{
    SyncReturn(false)
}

pub fn main_has_vram() -> (r: SyncReturn<bool>)
    ensures
        !r.0,
{
    SyncReturn(false)
}

pub fn main_supported_hwdecodings() -> (r: SyncReturn<String>)
    ensures
        r.0@ == Seq::<char>::empty(),
{
    SyncReturn(nothing())
}

pub fn main_is_root() -> (r: bool)
    ensures
        !r,
{
    false
}

pub fn main_start_dbus_server() {
}

#[allow(unused_variables)]
pub fn main_save_ab(json: String) {
}

pub fn main_clear_ab() {
}

pub fn main_load_ab() -> (r: String)
    ensures
        r@ == Seq::<char>::empty(),
{
    nothing()
}

#[allow(unused_variables)]
pub fn main_save_group(json: String) {
}

pub fn main_clear_group() {
}

pub fn main_load_group() -> (r: String)
    ensures
        r@ == Seq::<char>::empty(),
{
    nothing()
}

#[allow(unused_variables)]
pub fn main_set_home_dir(_home: String) {
}

#[allow(unused_variables)]
pub fn main_get_data_dir_ios(app_dir: String) -> (r: SyncReturn<String>)
    ensures
        r.0@ == Seq::<char>::empty(),
{
    SyncReturn(nothing())
}

pub fn main_stop_service() {
}

pub fn main_start_service() {
}

pub fn main_update_temporary_password() {
}

pub fn main_check_super_user_permission() -> (r: bool)
    ensures
        !r,
{
    false
}

pub fn main_get_unlock_pin() -> (r: SyncReturn<String>)
    ensures
        r.0@ == Seq::<char>::empty(),
{
    SyncReturn(nothing())
}

#[allow(unused_variables)]
pub fn main_set_unlock_pin(pin: String) -> (r: SyncReturn<String>)
    ensures
        r.0@ == Seq::<char>::empty(),
{
    SyncReturn(nothing())
}

pub fn main_check_mouse_time() {
}

#[allow(unused_variables)]
pub fn main_wol(id: String) {
}

#[allow(unused_variables)]
pub fn main_create_shortcut(_id: String) {
}

pub fn main_is_installed() -> (r: SyncReturn<bool>)
    ensures
        !r.0,
{
    SyncReturn(false)
}

pub fn main_init_input_source() -> (r: SyncReturn<()>) {
    SyncReturn(())
}

pub fn main_is_installed_lower_version() -> (r: SyncReturn<bool>)
    ensures
        !r.0,
{
    SyncReturn(false)
}

#[allow(unused_variables)]
pub fn main_is_installed_daemon(prompt: bool) -> (r: SyncReturn<bool>)
    ensures
        !r.0,
{
    SyncReturn(false)
}

#[allow(unused_variables)]
pub fn main_is_process_trusted(prompt: bool) -> (r: SyncReturn<bool>)
    ensures
        !r.0,
{
    SyncReturn(false)
}

#[allow(unused_variables)]
pub fn main_is_can_screen_recording(prompt: bool) -> (r: SyncReturn<bool>)
    ensures
        !r.0,
{
    SyncReturn(false)
}

#[allow(unused_variables)]
pub fn main_is_can_input_monitoring(prompt: bool) -> (r: SyncReturn<bool>)
    ensures
        !r.0,
{
    SyncReturn(false)
}

pub fn main_is_share_rdp() -> (r: SyncReturn<bool>)
    ensures
        !r.0,
{
    SyncReturn(false)
}

#[allow(unused_variables)]
pub fn main_set_share_rdp(enable: bool) {
}

pub fn main_goto_install() -> (r: SyncReturn<bool>)
    ensures
        !r.0,
{
    SyncReturn(false)
}

pub fn main_get_new_version() -> (r: SyncReturn<String>)
    ensures
        r.0@ == Seq::<char>::empty(),
{
    SyncReturn(nothing())
}

pub fn main_update_me() -> (r: SyncReturn<bool>)
    ensures
        !r.0,
{
    SyncReturn(false)
}

#[allow(unused_variables)]
pub fn main_account_auth(op: String, remember_me: bool) {
}

pub fn main_account_auth_cancel() {
}

pub fn main_account_auth_result() -> (r: String)
    ensures
        r@ == Seq::<char>::empty(),
{
    nothing()
}

pub fn main_on_main_window_close() {
}

pub fn main_current_is_wayland() -> (r: SyncReturn<bool>)
    ensures
        !r.0,
{
    SyncReturn(false)
}

pub fn main_is_login_wayland() -> (r: SyncReturn<bool>)
    ensures
        !r.0,
{
    SyncReturn(false)
}

pub fn main_hide_dock() -> (r: SyncReturn<bool>)
    ensures
        !r.0,
{
    SyncReturn(false)
}

pub fn main_has_file_clipboard() -> (r: SyncReturn<bool>)
    ensures
        !r.0,
{
    SyncReturn(false)
}

pub fn main_has_gpu_texture_render() -> (r: SyncReturn<bool>)
    ensures
        !r.0,
{
    SyncReturn(false)
}

pub fn main_start_ipc_url_server() {
}

#[allow(unused_variables)]
pub fn main_test_wallpaper(_second: u64) {
}

pub fn main_support_remove_wallpaper() -> (r: bool)
    ensures
        !r,
{
    false
}

pub fn main_default_privacy_mode_impl() -> (r: SyncReturn<String>)
    ensures
        r.0@ == Seq::<char>::empty(),
{
    SyncReturn(nothing())
}

pub fn main_supported_privacy_mode_impls() -> (r: SyncReturn<String>)
    ensures
        r.0@ == Seq::<char>::empty(),
{
    SyncReturn(nothing())
}

pub fn main_supported_input_source() -> (r: SyncReturn<String>)
    ensures
        r.0@ == Seq::<char>::empty(),
{
    SyncReturn(nothing())
}

pub fn main_generate2fa() -> (r: String)
    ensures
        r@ == Seq::<char>::empty(),
{
    nothing()
}

#[allow(unused_variables)]
pub fn main_verify2fa(code: String) -> (r: bool)
    ensures
        !r,
{
    false
}

pub fn main_has_valid_2fa_sync() -> (r: SyncReturn<bool>)
    ensures
        !r.0,
{
    SyncReturn(false)
}

#[allow(unused_variables)]
pub fn main_verify_bot(token: String) -> (r: String)
    ensures
        r@ == Seq::<char>::empty(),
{
    nothing()
}

pub fn main_has_valid_bot_sync() -> (r: SyncReturn<bool>)
    ensures
        !r.0,
{
    SyncReturn(false)
}

#[allow(unused_variables)]
pub fn main_get_hard_option(key: String) -> (r: SyncReturn<String>)
    ensures
        r.0@ == Seq::<char>::empty(),
{
    SyncReturn(nothing())
}

#[allow(unused_variables)]
pub fn main_get_buildin_option(key: String) -> (r: SyncReturn<String>)
    ensures
        r.0@ == Seq::<char>::empty(),
{
    SyncReturn(nothing())
}

pub fn main_check_hwcodec() {
}

pub fn main_get_trusted_devices() -> (r: String)
    ensures
        r@ == Seq::<char>::empty(),
{
    nothing()
}

#[allow(unused_variables)]
pub fn main_remove_trusted_devices(json: String) {
}

pub fn main_clear_trusted_devices() {
}

pub fn main_max_encrypt_len() -> (r: SyncReturn<usize>)
    ensures
        r.0 == 0,
{
    SyncReturn(0)
}

pub fn main_audio_support_loopback() -> (r: SyncReturn<bool>)
    ensures
        !r.0,
{
    SyncReturn(false)
}

pub fn main_get_printer_names() -> (r: SyncReturn<String>)
    ensures
        r.0@ == Seq::<char>::empty(),
{
    SyncReturn(nothing())
}

#[allow(unused_variables)]
pub fn main_set_common(_key: String, _value: String) {
}

// The manager of incoming connections.

#[allow(unused_variables)]
pub fn cm_handle_incoming_voice_call(id: i32, accept: bool) {
}

#[allow(unused_variables)]
pub fn cm_close_voice_call(id: i32) {
}

pub fn cm_get_clients_state() -> (r: String)
    ensures
        r@ == Seq::<char>::empty(),
{
    nothing()
}

#[allow(unused_variables)]
pub fn cm_check_clients_length(length: usize) -> (r: Option<String>)
    ensures
        r is None,
{
    None
}

pub fn cm_get_clients_length() -> (r: usize)
    ensures
        r == 0,
{
    0
}

#[allow(unused_variables)]
pub fn cm_send_chat(conn_id: i32, msg: String) {
}

#[allow(unused_variables)]
pub fn cm_login_res(conn_id: i32, res: bool) {
}

#[allow(unused_variables)]
pub fn cm_close_connection(conn_id: i32) {
}

#[allow(unused_variables)]
pub fn cm_close_connection_window(conn_id: i32) {
}

#[allow(unused_variables)]
pub fn cm_remove_disconnected_connection(conn_id: i32) {
}

#[allow(unused_variables)]
pub fn cm_check_click_time(conn_id: i32) {
}

#[allow(unused_variables)]
pub fn cm_switch_permission(conn_id: i32, name: String, enabled: bool) {
}

pub fn cm_can_elevate() -> (r: SyncReturn<bool>)
    ensures
        !r.0,
{
    SyncReturn(false)
}

#[allow(unused_variables)]
pub fn cm_elevate_portable(conn_id: i32) {
}

#[allow(unused_variables)]
pub fn cm_switch_back(conn_id: i32) {
}

#[allow(unused_variables)]
pub fn cm_get_config(name: String) -> (r: String)
    ensures
        r@ == Seq::<char>::empty(),
{
    nothing()
}

pub fn cm_init() {
}

// The rest.

#[allow(unused_variables)]
pub fn start_global_event_stream(app_type: String) -> (r: Result<(), String>)
    ensures
        r is Ok,
{
    Ok(())
}

#[allow(unused_variables)]
pub fn stop_global_event_stream(app_type: String) {
}

#[allow(unused_variables)]
pub fn host_stop_system_key_propagate(_stopped: bool) {
}

pub fn get_next_texture_key() -> (r: SyncReturn<i32>)
    ensures
        r.0 == 0,
{
    SyncReturn(0)
}

pub fn get_local_kb_layout_type() -> (r: SyncReturn<String>)
    ensures
        r.0@ == Seq::<char>::empty(),
{
    SyncReturn(nothing())
}

#[allow(unused_variables)]
pub fn set_local_kb_layout_type(kb_layout_type: String) {
}

#[allow(unused_variables)]
pub fn set_voice_call_input_device(_is_cm: bool, _device: String) {
}

#[allow(unused_variables)]
pub fn get_voice_call_input_device(_is_cm: bool) -> (r: String)
    ensures
        r@ == Seq::<char>::empty(),
{
    nothing()
}

pub fn get_double_click_time() -> (r: SyncReturn<i32>)
    ensures
        r.0 == 0,
{
    SyncReturn(0)
}

#[allow(unused_variables)]
pub fn query_onlines(ids: Vec<String>) {
}

#[allow(unused_variables)]
pub fn set_cur_session_id(session_id: SessionID) {
}

pub fn install_show_run_without_install() -> (r: SyncReturn<bool>)
    ensures
        !r.0,
{
    SyncReturn(false)
}

pub fn install_run_without_install() {
}

#[allow(unused_variables)]
pub fn install_install_me(options: String, path: String) {
}

pub fn install_install_path() -> (r: SyncReturn<String>)
    ensures
        r.0@ == Seq::<char>::empty(),
{
    SyncReturn(nothing())
}

pub fn install_install_options() -> (r: SyncReturn<String>)
    ensures
        r.0@ == Seq::<char>::empty(),
{
    SyncReturn(nothing())
}

pub fn is_incoming_only() -> (r: SyncReturn<bool>)
    ensures
        !r.0,
{
    SyncReturn(false)
}

pub fn is_outgoing_only() -> (r: SyncReturn<bool>)
    ensures
        !r.0,
{
    SyncReturn(false)
}

pub fn is_custom_client() -> (r: SyncReturn<bool>)
    ensures
        !r.0,
{
    SyncReturn(false)
}

pub fn is_disable_settings() -> (r: SyncReturn<bool>)
    ensures
        !r.0,
{
    SyncReturn(false)
}

pub fn is_disable_ab() -> (r: SyncReturn<bool>)
    ensures
        !r.0,
{
    SyncReturn(false)
}

pub fn is_disable_account() -> (r: SyncReturn<bool>)
    ensures
        !r.0,
{
    SyncReturn(false)
}

pub fn is_disable_group_panel() -> (r: SyncReturn<bool>)
    ensures
        !r.0,
{
    SyncReturn(false)
}

pub fn is_disable_installation() -> (r: SyncReturn<bool>)
    ensures
        !r.0,
{
    SyncReturn(false)
}

pub fn is_preset_password() -> (r: bool)
    ensures
        !r,
{
    false
}

pub fn is_preset_password_mobile_only() -> (r: SyncReturn<bool>)
    ensures
        !r.0,
{
    SyncReturn(false)
}

#[allow(unused_variables)]
pub fn send_url_scheme(_url: String) {
}

#[allow(unused_variables)]
pub fn is_support_multi_ui_session(version: String) -> (r: SyncReturn<bool>)
    ensures
        !r.0,
{
    SyncReturn(false)
}

pub fn is_selinux_enforcing() -> (r: SyncReturn<bool>)
    ensures
        !r.0,
{
    SyncReturn(false)
}

} // verus!

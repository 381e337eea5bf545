use vstd::prelude::*;

verus! {

/// Languages the interface text is available in.
#[derive(Clone, Copy, Debug, PartialEq, Eq, Structural)]
pub enum Language {
    Chinese,
    English,
}

/// Every piece of interface text, in one language. Fields ending in `_fmt`
/// hold `{}` where a value is to be filled in.
#[derive(Clone, Copy, Debug)]
pub struct Lang {
    pub nav_lang_label: &'static str,
    pub nav_zh_label: &'static str,
    pub nav_en_label: &'static str,
    pub nav_help_btn: &'static str,
    pub mode_single: &'static str,
    pub mode_compare: &'static str,
    pub mode_console: &'static str,
    pub status_loading: &'static str,
    pub status_ready: &'static str,
    pub single_heading: &'static str,
    pub single_open_btn: &'static str,
    pub single_clear_btn: &'static str,
    pub single_empty_label: &'static str,
    pub single_y_label: &'static str,
    pub single_x_label: &'static str,
    pub debug_end_loading: &'static str,
    pub export_csv_btn: &'static str,
    pub normalize_label: &'static str,
    pub normalize_apply: &'static str,
    pub compare_heading: &'static str,
    pub compare_track_a_label: &'static str,
    pub compare_track_b_label: &'static str,
    pub compare_select_a: &'static str,
    pub compare_select_b: &'static str,
    pub compare_report_title: &'static str,
    pub compare_plot_raw_label: &'static str,
    pub compare_plot_diff_label: &'static str,
    pub compare_empty_label: &'static str,
    pub compare_conf_label: &'static str,
    pub compare_err_duration_fmt: &'static str,
    pub compare_avg_diff_fmt: &'static str,
    pub compare_std_dev_fmt: &'static str,
    pub compare_correlation_fmt: &'static str,
    pub compare_t_stat_fmt: &'static str,
    pub compare_t_test_significant: &'static str,
    pub compare_t_test_not_significant: &'static str,
    pub compare_max_diff_fmt: &'static str,
    pub compare_min_diff_fmt: &'static str,
    pub compare_high_match: &'static str,
    pub compare_mid_diff: &'static str,
    pub compare_huge_diff: &'static str,
    pub help_title: &'static str,
    pub help_desc: &'static str,
    pub help_monitor_title: &'static str,
    pub help_console_title: &'static str,
    pub help_cmd_list: &'static str,
    pub help_cmd_kill: &'static str,
    pub help_cmd_clear: &'static str,
    pub help_cmd_quit: &'static str,
    pub console_cmd_hint_cn: &'static str,
    pub console_cmd_label: &'static str,
    pub help_monitor_desc: &'static str,
}

/// The text table of each language.
pub open spec fn table(lang: Language) -> Lang {
    match lang {
        Language::Chinese => Lang {
            nav_lang_label: "语言:",
            nav_zh_label: "中文",
            nav_en_label: "English",
            nav_help_btn: "❓ 帮助",
            mode_single: "🎵 单机批处理模式",
            mode_compare: "⚖️ AB 对比模式",
            mode_console: "💻 控制台/日志",
            status_loading: "正在处理音频数据，请稍候...",
            status_ready: "就绪",
            single_heading: "单文件/批处理分析",
            single_open_btn: "📂 打开文件 (支持多选 WAV/CSV)",
            single_clear_btn: "🗑️ 清空列表",
            single_empty_label: "请加载文件以查看图表。",
            single_y_label: "Loudness (dBFS)",
            single_x_label: "Time (s)",
            debug_end_loading: "⏹️ 结束加载 (Debug)",
            export_csv_btn: "💾 导出为 CSV",
            normalize_label: "LUFS 归一化目标 (平均 dBFS):",
            normalize_apply: "应用归一化",
            compare_heading: "A/B 动态一致性检验",
            compare_track_a_label: "Track A (Ref):",
            compare_track_b_label: "Track B (Target):",
            compare_select_a: "📂 选择文件 A",
            compare_select_b: "📂 选择文件 B",
            compare_report_title: "分析报告",
            compare_plot_raw_label: "响度曲线对比 (A vs B)",
            compare_plot_diff_label: "差值稳定性 (Track A - Track B)",
            compare_empty_label: "请加载两个文件以开始对比...",
            compare_conf_label: "假设检验置信度:",
            compare_err_duration_fmt: "❌ 时间差异过大 ({}s vs {}s)，无法进行逐点对比。",
            compare_avg_diff_fmt: "平均差异: {} dB",
            compare_std_dev_fmt: "动态标准差: {}",
            compare_correlation_fmt: "动态相关系数 (r): {}",
            compare_t_stat_fmt: "均值差值 T-统计量: {}",
            compare_t_test_significant: "❌ 均值差值显著",
            compare_t_test_not_significant: "✅ 均值差值不显著",
            compare_max_diff_fmt: "最大差值: {} dB",
            compare_min_diff_fmt: "最小差值: {} dB",
            compare_high_match: "✅ 动态一致性极高",
            compare_mid_diff: "⚠️ 动态存在差异",
            compare_huge_diff: "❌ 动态差异巨大",
            help_title: "📊 WAV 动态分析器帮助",
            help_desc: "本应用用于分析 WAV/CSV 文件的响度曲线 (LUFS/dBFS) 并进行归一化或动态一致性 (A/B) 比较。",
            help_monitor_title: "进程监视器",
            help_console_title: "控制台命令",
            help_cmd_list: "显示当前所有正在运行或已完成的后台任务。",
            help_cmd_kill: "发送终止信号给指定 ID 的任务。用法: kill <任务ID>",
            help_cmd_clear: "清空控制台日志。",
            help_cmd_quit: "发送关闭信号给工作池，准备退出应用。",
            console_cmd_hint_cn: "可用命令: `tasks` (或 `list`) | `kill <ID>` | `clear` | `quit` (或 `exit`)",
            console_cmd_label: "CMD >",
            help_monitor_desc: "进程监视器（💻 控制台/日志模式）显示后台加载和分析任务的实时状态。",
        },
        Language::English => Lang {
            nav_lang_label: "Language:",
            nav_zh_label: "Chinese",
            nav_en_label: "English",
            nav_help_btn: "❓ Help",
            mode_single: "🎵 Single Batch Mode",
            mode_compare: "⚖️ A/B Comparison Mode",
            mode_console: "💻 Console/Log",
            status_loading: "Processing audio data, please wait...",
            status_ready: "Ready",
            single_heading: "Single File / Batch Analysis",
            single_open_btn: "📂 Open Files (WAV/CSV Multi-select)",
            single_clear_btn: "🗑️ Clear List",
            single_empty_label: "Please load files to view the plot.",
            single_y_label: "Loudness (dBFS)",
            single_x_label: "Time (s)",
            debug_end_loading: "⏹️ End Loading (Debug)",
            export_csv_btn: "💾 Export to CSV",
            normalize_label: "LUFS Normalization Target (Avg dBFS):",
            normalize_apply: "Apply Normalization",
            compare_heading: "A/B Dynamic Consistency Check",
            compare_track_a_label: "Track A (Ref):",
            compare_track_b_label: "Track B (Target):",
            compare_select_a: "📂 Select File A",
            compare_select_b: "📂 Select File B",
            compare_report_title: "Analysis Report",
            compare_plot_raw_label: "Loudness Curve Comparison (A vs B)",
            compare_plot_diff_label: "Difference Stability (Track A - Track B)",
            compare_empty_label: "Please load two files to start comparison...",
            compare_conf_label: "Hypothesis Test Confidence:",
            compare_err_duration_fmt: "❌ Duration difference too large ({}s vs {}s), unable to perform point-by-point comparison.",
            compare_avg_diff_fmt: "Average Difference: {} dB",
            compare_std_dev_fmt: "Dynamic Std Dev: {}",
            compare_correlation_fmt: "Dynamic Correlation (r): {}",
            compare_t_stat_fmt: "Mean Diff T-Statistic: {}",
            compare_t_test_significant: "❌ Mean Difference is Significant",
            compare_t_test_not_significant: "✅ Mean Difference is Not Significant",
            compare_max_diff_fmt: "Max Difference: {} dB",
            compare_min_diff_fmt: "Min Difference: {} dB",
            compare_high_match: "✅ High Dynamic Consistency",
            compare_mid_diff: "⚠️ Dynamic Differences Exist",
            compare_huge_diff: "❌ Huge Dynamic Difference",
            help_title: "📊 WAV Dynamics Analyzer Help",
            help_desc: "This application is used to analyze loudness curves (LUFS/dBFS) of WAV/CSV files and perform normalization or dynamic consistency (A/B) comparisons.",
            help_monitor_title: "Process Monitor",
            help_console_title: "Console Commands",
            help_cmd_list: "Show all currently running or completed background tasks.",
            help_cmd_kill: "Sends a termination signal to the task with the specified ID. Usage: kill <TaskID>",
            help_cmd_clear: "Clear the console log.",
            help_cmd_quit: "Sends a shutdown signal to the worker pool, preparing to exit the application.",
            console_cmd_hint_cn: "Available commands: `tasks` (or `list`) | `kill <ID>` | `clear` | `quit` (or `exit`)",
            console_cmd_label: "CMD >",
            help_monitor_desc: "The process monitor (💻 Console/Log mode) shows the real-time status of background loading and analysis tasks.",
        },
    }
}

impl Lang {
    /// The interface text of `lang`.
    pub fn load(lang: Language) -> (r: Lang)
        ensures
            r == table(lang),
    {
        match lang {
            Language::Chinese => Lang {
                nav_lang_label: "语言:",
                nav_zh_label: "中文",
                nav_en_label: "English",
                nav_help_btn: "❓ 帮助",
                mode_single: "🎵 单机批处理模式",
                mode_compare: "⚖️ AB 对比模式",
                mode_console: "💻 控制台/日志",
                status_loading: "正在处理音频数据，请稍候...",
                status_ready: "就绪",
                single_heading: "单文件/批处理分析",
                single_open_btn: "📂 打开文件 (支持多选 WAV/CSV)",
                single_clear_btn: "🗑️ 清空列表",
                single_empty_label: "请加载文件以查看图表。",
                single_y_label: "Loudness (dBFS)",
                single_x_label: "Time (s)",
                debug_end_loading: "⏹️ 结束加载 (Debug)",
                export_csv_btn: "💾 导出为 CSV",
                normalize_label: "LUFS 归一化目标 (平均 dBFS):",
                normalize_apply: "应用归一化",
                compare_heading: "A/B 动态一致性检验",
                compare_track_a_label: "Track A (Ref):",
                compare_track_b_label: "Track B (Target):",
                compare_select_a: "📂 选择文件 A",
                compare_select_b: "📂 选择文件 B",
                compare_report_title: "分析报告",
                compare_plot_raw_label: "响度曲线对比 (A vs B)",
                compare_plot_diff_label: "差值稳定性 (Track A - Track B)",
                compare_empty_label: "请加载两个文件以开始对比...",
                compare_conf_label: "假设检验置信度:",
                compare_err_duration_fmt: "❌ 时间差异过大 ({}s vs {}s)，无法进行逐点对比。",
                compare_avg_diff_fmt: "平均差异: {} dB",
                compare_std_dev_fmt: "动态标准差: {}",
                compare_correlation_fmt: "动态相关系数 (r): {}",
                compare_t_stat_fmt: "均值差值 T-统计量: {}",
                compare_t_test_significant: "❌ 均值差值显著",
                compare_t_test_not_significant: "✅ 均值差值不显著",
                compare_max_diff_fmt: "最大差值: {} dB",
                compare_min_diff_fmt: "最小差值: {} dB",
                compare_high_match: "✅ 动态一致性极高",
                compare_mid_diff: "⚠️ 动态存在差异",
                compare_huge_diff: "❌ 动态差异巨大",
                help_title: "📊 WAV 动态分析器帮助",
                help_desc: "本应用用于分析 WAV/CSV 文件的响度曲线 (LUFS/dBFS) 并进行归一化或动态一致性 (A/B) 比较。",
                help_monitor_title: "进程监视器",
                help_console_title: "控制台命令",
                help_cmd_list: "显示当前所有正在运行或已完成的后台任务。",
                help_cmd_kill: "发送终止信号给指定 ID 的任务。用法: kill <任务ID>",
                help_cmd_clear: "清空控制台日志。",
                help_cmd_quit: "发送关闭信号给工作池，准备退出应用。",
                console_cmd_hint_cn: "可用命令: `tasks` (或 `list`) | `kill <ID>` | `clear` | `quit` (或 `exit`)",
                console_cmd_label: "CMD >",
                help_monitor_desc: "进程监视器（💻 控制台/日志模式）显示后台加载和分析任务的实时状态。",
            },
            Language::English => Lang {
                nav_lang_label: "Language:",
                nav_zh_label: "Chinese",
                nav_en_label: "English",
                nav_help_btn: "❓ Help",
                mode_single: "🎵 Single Batch Mode",
                mode_compare: "⚖️ A/B Comparison Mode",
                mode_console: "💻 Console/Log",
                status_loading: "Processing audio data, please wait...",
                status_ready: "Ready",
                single_heading: "Single File / Batch Analysis",
                single_open_btn: "📂 Open Files (WAV/CSV Multi-select)",
                single_clear_btn: "🗑️ Clear List",
                single_empty_label: "Please load files to view the plot.",
                single_y_label: "Loudness (dBFS)",
                single_x_label: "Time (s)",
                debug_end_loading: "⏹️ End Loading (Debug)",
                export_csv_btn: "💾 Export to CSV",
                normalize_label: "LUFS Normalization Target (Avg dBFS):",
                normalize_apply: "Apply Normalization",
                compare_heading: "A/B Dynamic Consistency Check",
                compare_track_a_label: "Track A (Ref):",
                compare_track_b_label: "Track B (Target):",
                compare_select_a: "📂 Select File A",
                compare_select_b: "📂 Select File B",
                compare_report_title: "Analysis Report",
                compare_plot_raw_label: "Loudness Curve Comparison (A vs B)",
                compare_plot_diff_label: "Difference Stability (Track A - Track B)",
                compare_empty_label: "Please load two files to start comparison...",
                compare_conf_label: "Hypothesis Test Confidence:",
                compare_err_duration_fmt: "❌ Duration difference too large ({}s vs {}s), unable to perform point-by-point comparison.",
                compare_avg_diff_fmt: "Average Difference: {} dB",
                compare_std_dev_fmt: "Dynamic Std Dev: {}",
                compare_correlation_fmt: "Dynamic Correlation (r): {}",
                compare_t_stat_fmt: "Mean Diff T-Statistic: {}",
                compare_t_test_significant: "❌ Mean Difference is Significant",
                compare_t_test_not_significant: "✅ Mean Difference is Not Significant",
                compare_max_diff_fmt: "Max Difference: {} dB",
                compare_min_diff_fmt: "Min Difference: {} dB",
                compare_high_match: "✅ High Dynamic Consistency",
                compare_mid_diff: "⚠️ Dynamic Differences Exist",
                compare_huge_diff: "❌ Huge Dynamic Difference",
                help_title: "📊 WAV Dynamics Analyzer Help",
                help_desc: "This application is used to analyze loudness curves (LUFS/dBFS) of WAV/CSV files and perform normalization or dynamic consistency (A/B) comparisons.",
                help_monitor_title: "Process Monitor",
                help_console_title: "Console Commands",
                help_cmd_list: "Show all currently running or completed background tasks.",
                help_cmd_kill: "Sends a termination signal to the task with the specified ID. Usage: kill <TaskID>",
                help_cmd_clear: "Clear the console log.",
                help_cmd_quit: "Sends a shutdown signal to the worker pool, preparing to exit the application.",
                console_cmd_hint_cn: "Available commands: `tasks` (or `list`) | `kill <ID>` | `clear` | `quit` (or `exit`)",
                console_cmd_label: "CMD >",
                help_monitor_desc: "The process monitor (💻 Console/Log mode) shows the real-time status of background loading and analysis tasks.",
            },
        }
    }
}

} // verus!
